//! The outcome of converting one file, the configuration it runs under, and
//! the table of accepted input formats.

use vstd::prelude::*;
use crate::text::{
    ascii_lower, ascii_lowercase, lowering_ignores_case, lowering_maps_each_capital_to_its_small_letter,
    same_text, same_up_to_case,
};

verus! {

/// What became of one source file.
#[derive(Debug, Clone, Copy, PartialEq, Eq, Structural)]
pub enum Status {
    /// A WebP file was written.
    Done,
    /// The target already existed and overwriting was off.
    Exists,
    /// Reading, decoding, encoding or writing failed.
    Failed,
}

/// The stage at which a conversion failed.
#[derive(Debug, Clone, Copy, PartialEq, Eq, Structural)]
pub enum FailReason {
    Read,
    Decode,
    Encode,
    Write,
}

impl FailReason {
    /// The machine-readable name of the reason.
    pub open spec fn label(self) -> Seq<char> {
        match self {
            FailReason::Read => "read"@,
            FailReason::Decode => "decode"@,
            FailReason::Encode => "encode"@,
            FailReason::Write => "write"@,
        }
    }

    pub fn as_str(self) -> (res: &'static str)
        ensures
            res@ == self.label(),
    {
        match self {
            FailReason::Read => "read",
            FailReason::Decode => "decode",
            FailReason::Encode => "encode",
            FailReason::Write => "write",
        }
    }
}

/// The result of converting one file.
#[derive(Debug)]
pub struct FileResult {
    pub status: Status,
    pub fail_reason: Option<FailReason>,
    pub err: Option<String>,
    pub width: u32,
    pub height: u32,
    pub in_bytes: u64,
    pub out_bytes: u64,
}

impl FileResult {
    /// `self` reports a failure for `reason` with the message `msg`, and no sizes.
    pub open spec fn is_failure(self, reason: FailReason, msg: Seq<char>) -> bool {
        &&& self.status == Status::Failed
        &&& self.fail_reason == Some(reason)
        &&& self.err matches Some(e) && e@ == msg
        &&& self.width == 0 && self.height == 0
        &&& self.in_bytes == 0 && self.out_bytes == 0
    }

    /// `self` reports `status` with no reason, no message and no sizes.
    pub open spec fn is_bare(self, status: Status) -> bool {
        &&& self.status == status
        &&& self.fail_reason is None
        &&& self.err is None
        &&& self.width == 0 && self.height == 0
        &&& self.in_bytes == 0 && self.out_bytes == 0
    }
}

/// How files are converted.
#[derive(Debug, Clone, Copy)]
pub struct ConvConfig {
    /// Shrink images wider than `width`.
    pub resize: bool,
    /// The width threshold of `resize`.
    pub width: u32,
    /// WebP quality, 0 to 100.
    pub quality: u8,
    /// Replace targets that already exist.
    pub overwrite: bool,
}

/// A failed conversion.
pub fn fail(reason: FailReason, err: String) -> (res: FileResult)
    ensures
        res.is_failure(reason, err@),
{
    FileResult {
        status: Status::Failed,
        fail_reason: Some(reason),
        err: Some(err),
        width: 0,
        height: 0,
        in_bytes: 0,
        out_bytes: 0,
    }
}

/// A conversion that ended in `status` without anything to report.
pub fn empty(status: Status) -> (res: FileResult)
    ensures
        res.is_bare(status),
{
    FileResult {
        status,
        fail_reason: None,
        err: None,
        width: 0,
        height: 0,
        in_bytes: 0,
        out_bytes: 0,
    }
}

/// The input formats the converter decodes.
#[derive(Debug, Clone, Copy, PartialEq, Eq, Structural)]
pub enum InputFormat {
    Png,
    Jpeg,
    Gif,
    Bmp,
    Tiff,
    Ico,
    Tga,
    Pnm,
    Qoi,
    Hdr,
    Dds,
    WebP,
}

/// The format that a (lower-case) file extension names, if it is one the
/// converter accepts.
pub open spec fn format_of(ext: Seq<char>) -> Option<InputFormat> {
    if ext == "png"@ {
        Some(InputFormat::Png)
    } else if ext == "jpg"@ || ext == "jpeg"@ {
        Some(InputFormat::Jpeg)
    } else if ext == "gif"@ {
        Some(InputFormat::Gif)
    } else if ext == "bmp"@ {
        Some(InputFormat::Bmp)
    } else if ext == "tif"@ || ext == "tiff"@ {
        Some(InputFormat::Tiff)
    } else if ext == "ico"@ {
        Some(InputFormat::Ico)
    } else if ext == "tga"@ {
        Some(InputFormat::Tga)
    } else if ext == "pnm"@ || ext == "pbm"@ || ext == "pgm"@ || ext == "ppm"@ || ext == "pam"@ {
        Some(InputFormat::Pnm)
    } else if ext == "qoi"@ {
        Some(InputFormat::Qoi)
    } else if ext == "hdr"@ {
        Some(InputFormat::Hdr)
    } else if ext == "dds"@ {
        Some(InputFormat::Dds)
    } else if ext == "webp"@ {
        Some(InputFormat::WebP)
    } else {
        None
    }
}

/// The extensions under which files of format `f` are accepted.
pub open spec fn extensions_of(f: InputFormat) -> Set<Seq<char>> {
    match f {
        InputFormat::Png => set!["png"@],
        InputFormat::Jpeg => set!["jpg"@, "jpeg"@],
        InputFormat::Gif => set!["gif"@],
        InputFormat::Bmp => set!["bmp"@],
        InputFormat::Tiff => set!["tif"@, "tiff"@],
        InputFormat::Ico => set!["ico"@],
        InputFormat::Tga => set!["tga"@],
        InputFormat::Pnm => set!["pnm"@, "pbm"@, "pgm"@, "ppm"@, "pam"@],
        InputFormat::Qoi => set!["qoi"@],
        InputFormat::Hdr => set!["hdr"@],
        InputFormat::Dds => set!["dds"@],
        InputFormat::WebP => set!["webp"@],
    }
}

/// Each accepted extension names its own format, and only that one: a file
/// is decoded as `f` exactly when its (lower-case) extension is one of the
/// extensions of `f`.
pub proof fn each_extension_names_its_format(ext: Seq<char>, f: InputFormat)
    ensures
        format_of(ext) == Some(f) <==> extensions_of(f).contains(ext),
{
    reveal_strlit("png");
    reveal_strlit("jpg");
    reveal_strlit("jpeg");
    reveal_strlit("gif");
    reveal_strlit("bmp");
    reveal_strlit("tif");
    reveal_strlit("tiff");
    reveal_strlit("ico");
    reveal_strlit("tga");
    reveal_strlit("pnm");
    reveal_strlit("pbm");
    reveal_strlit("pgm");
    reveal_strlit("ppm");
    reveal_strlit("pam");
    reveal_strlit("qoi");
    reveal_strlit("hdr");
    reveal_strlit("dds");
    reveal_strlit("webp");
    let lits = seq!["png"@, "jpg"@, "jpeg"@, "gif"@, "bmp"@, "tif"@, "tiff"@, "ico"@, "tga"@,
        "pnm"@, "pbm"@, "pgm"@, "ppm"@, "pam"@, "qoi"@, "hdr"@, "dds"@, "webp"@];
    assert forall|i: int, j: int| 0 <= i < j < 18 implies lits[i] != lits[j] by {
        assert(lits[i][0] != lits[j][0] || lits[i][1] != lits[j][1] || lits[i][2] != lits[j][2]
            || lits[i].len() != lits[j].len());
    }
}

/// The format of a file with the extension `ext`, matched exactly.
pub fn image_format_of(ext: &str) -> (res: Option<InputFormat>)
    ensures
        res == format_of(ext@),
        forall|f: InputFormat| res == Some(f) <==> #[trigger] extensions_of(f).contains(ext@),
{
    proof {
        assert forall|f: InputFormat| format_of(ext@) == Some(f) <==> #[trigger] extensions_of(f).contains(ext@) by {
            each_extension_names_its_format(ext@, f);
        }
    }
    if same_text(ext, "png") {
        Some(InputFormat::Png)
    } else if same_text(ext, "jpg") || same_text(ext, "jpeg") {
        Some(InputFormat::Jpeg)
    } else if same_text(ext, "gif") {
        Some(InputFormat::Gif)
    } else if same_text(ext, "bmp") {
        Some(InputFormat::Bmp)
    } else if same_text(ext, "tif") || same_text(ext, "tiff") {
        Some(InputFormat::Tiff)
    } else if same_text(ext, "ico") {
        Some(InputFormat::Ico)
    } else if same_text(ext, "tga") {
        Some(InputFormat::Tga)
    } else if same_text(ext, "pnm") || same_text(ext, "pbm") || same_text(ext, "pgm")
        || same_text(ext, "ppm") || same_text(ext, "pam") {
        Some(InputFormat::Pnm)
    } else if same_text(ext, "qoi") {
        Some(InputFormat::Qoi)
    } else if same_text(ext, "hdr") {
        Some(InputFormat::Hdr)
    } else if same_text(ext, "dds") {
        Some(InputFormat::Dds)
    } else if same_text(ext, "webp") {
        Some(InputFormat::WebP)
    } else {
        None
    }
}


/// The format of a file with the extension `ext`, compared without regard to
/// ASCII case; a file without a (UTF-8) extension has none.
pub open spec fn extension_format(ext: Option<Seq<char>>) -> Option<InputFormat> {
    match ext {
        Some(e) => format_of(ascii_lower(e)),
        None => None,
    }
}

/// Extensions are matched without regard to ASCII case: two extensions that
/// differ only in case name the same format.
pub proof fn extension_case_is_ignored(a: Seq<char>, b: Seq<char>)
    requires
        ascii_lower(a) == ascii_lower(b),
    ensures
        extension_format(Some(a)) == extension_format(Some(b)),
{
}

/// An extension written in any mix of ASCII case names the format that its
/// lower-case spelling names: `GIF`, `Gif` and `gif` are all GIF.
pub proof fn extension_case_never_matters(a: Seq<char>, e: Seq<char>)
    requires
        a.len() == e.len(),
        forall|i: int| 0 <= i < a.len() ==> same_up_to_case(#[trigger] a[i], e[i]),
        forall|i: int| 0 <= i < e.len() ==> !('A' <= #[trigger] e[i] <= 'Z'),
    ensures
        extension_format(Some(a)) == format_of(e),
{
    lowering_ignores_case(a, e);
    lowering_maps_each_capital_to_its_small_letter(e);
    assert(ascii_lower(e) =~= e);
}

/// The plain-value form of an optional extension.
pub open spec fn text_opt(ext: Option<&str>) -> Option<Seq<char>> {
    match ext {
        Some(e) => Some(e@),
        None => None,
    }
}

/// The format of a file with the extension `ext`, in any ASCII case.
pub fn format_for_extension(ext: Option<&str>) -> (res: Option<InputFormat>)
    ensures
        res == extension_format(text_opt(ext)),
{
    match ext {
        Some(e) => {
            let lower = ascii_lowercase(e);
            image_format_of(lower.as_str())
        },
        None => None,
    }
}

} // verus!
