//! The bookkeeping of a directory scan: which files become conversion jobs,
//! and the counts that the summary reports.

use vstd::prelude::*;
use std::path::PathBuf;
use crate::convert::{extension_format, format_for_extension, format_of};
use crate::text::{concat2, joined};

verus! {

#[verifier::external_type_specification]
#[verifier::external_body]
pub struct ExPathBuf(PathBuf);

/// The counts of a scan.
#[derive(Debug, Clone, Copy)]
pub struct ScanCounts {
    /// Regular files seen.
    pub total_files: usize,
    /// Files with a supported extension.
    pub supported: usize,
    /// Files skipped for their extension.
    pub skipped_ext: usize,
    /// Entries the walk could not read.
    pub walk_errors: usize,
}

impl Default for ScanCounts {
    fn default() -> (res: ScanCounts)
        ensures
            res.total_files == 0 && res.supported == 0,
            res.skipped_ext == 0 && res.walk_errors == 0,
    {
        ScanCounts { total_files: 0, supported: 0, skipped_ext: 0, walk_errors: 0 }
    }
}

/// A file to convert, and where its WebP goes.
#[derive(Debug)]
pub struct Job {
    pub src: PathBuf,
    pub out: PathBuf,
}

/// One entry of a directory walk.
pub enum Entry {
    /// The walk could not read an entry.
    Unreadable,
    /// A directory, link or other entry that is not a regular file.
    NotAFile,
    /// A regular file: its path, the path of its WebP, and its extension
    /// where it has one in UTF-8.
    File { src: PathBuf, out: PathBuf, ext: Option<String> },
}

/// What the scan made of an entry.
#[derive(Debug, Clone, Copy, PartialEq, Eq, Structural)]
pub enum Verdict {
    /// Not a file, or unreadable.
    Ignored,
    /// A file skipped for its extension.
    Unsupported,
    /// A file queued for conversion.
    Queued,
}

/// The jobs and counts of a scan in progress.
pub struct Scan {
    pub counts: ScanCounts,
    pub jobs: Vec<Job>,
    /// The files skipped for their extension, in the order seen.
    pub skipped: Vec<PathBuf>,
}

/// The plain-value form of an optional extension.
pub open spec fn ext_view(ext: Option<String>) -> Option<Seq<char>> {
    match ext {
        Some(e) => Some(e@),
        None => None,
    }
}

impl Scan {
    /// The counts agree with the lists: every file seen was either queued or
    /// skipped.
    pub open spec fn wf(self) -> bool {
        &&& self.counts.total_files == self.counts.supported + self.counts.skipped_ext
        &&& self.jobs@.len() == self.counts.supported
        &&& self.skipped@.len() == self.counts.skipped_ext
    }

    /// Another entry can be counted without overflow.
    pub open spec fn has_room(self) -> bool {
        self.counts.total_files < usize::MAX && self.counts.walk_errors < usize::MAX
    }

    /// An empty scan.
    pub fn new() -> (res: Scan)
        ensures
            res.wf(),
            res.counts.total_files == 0 && res.counts.walk_errors == 0,
            res.jobs@.len() == 0 && res.skipped@.len() == 0,
    {
        Scan { counts: ScanCounts::default(), jobs: Vec::new(), skipped: Vec::new() }
    }

    /// Whether another entry can be counted.
    pub fn room_left(&self) -> (res: bool)
        ensures
            res == self.has_room(),
    {
        self.counts.total_files < usize::MAX && self.counts.walk_errors < usize::MAX
    }

    /// Counts `entry`, and queues it when it is a file with a supported extension.
    pub fn visit(&mut self, entry: Entry) -> (verdict: Verdict)
        requires
            old(self).wf(),
            old(self).has_room(),
        ensures
            final(self).wf(),
            match entry {
                Entry::Unreadable => {
                    &&& verdict == Verdict::Ignored
                    &&& final(self).counts.walk_errors == old(self).counts.walk_errors + 1
                    &&& final(self).counts.total_files == old(self).counts.total_files
                    &&& final(self).counts.supported == old(self).counts.supported
                    &&& final(self).jobs@ == old(self).jobs@
                    &&& final(self).skipped@ == old(self).skipped@
                },
                Entry::NotAFile => {
                    &&& verdict == Verdict::Ignored
                    &&& final(self).counts == old(self).counts
                    &&& final(self).jobs@ == old(self).jobs@
                    &&& final(self).skipped@ == old(self).skipped@
                },
                Entry::File { src, out, ext } => {
                    &&& final(self).counts.total_files == old(self).counts.total_files + 1
                    &&& final(self).counts.walk_errors == old(self).counts.walk_errors
                    &&& if extension_format(ext_view(ext)) is Some {
                        &&& verdict == Verdict::Queued
                        &&& final(self).counts.supported == old(self).counts.supported + 1
                        &&& final(self).jobs@ == old(self).jobs@.push(Job { src, out })
                        &&& final(self).skipped@ == old(self).skipped@
                    } else {
                        &&& verdict == Verdict::Unsupported
                        &&& final(self).counts.supported == old(self).counts.supported
                        &&& final(self).jobs@ == old(self).jobs@
                        &&& final(self).skipped@ == old(self).skipped@.push(src)
                    }
                },
            },
    {
        match entry {
            Entry::Unreadable => {
                self.counts.walk_errors = self.counts.walk_errors + 1;
                Verdict::Ignored
            },
            Entry::NotAFile => Verdict::Ignored,
            Entry::File { src, out, ext } => {
                self.counts.total_files = self.counts.total_files + 1;
                let format = match &ext {
                    Some(e) => format_for_extension(Some(e.as_str())),
                    None => format_for_extension(None),
                };
                if format.is_some() {
                    self.counts.supported = self.counts.supported + 1;
                    self.jobs.push(Job { src, out });
                    Verdict::Queued
                } else {
                    self.counts.skipped_ext = self.counts.skipped_ext + 1;
                    self.skipped.push(src);
                    Verdict::Unsupported
                }
            },
        }
    }
}

/// How many of `es` are regular files.
pub open spec fn file_count(es: Seq<Entry>) -> nat
    decreases es.len(),
{
    if es.len() == 0 {
        0
    } else {
        file_count(es.drop_last()) + if es.last() is File { 1nat } else { 0nat }
    }
}

/// How many of `es` could not be read.
pub open spec fn unreadable_count(es: Seq<Entry>) -> nat
    decreases es.len(),
{
    if es.len() == 0 {
        0
    } else {
        unreadable_count(es.drop_last()) + if es.last() is Unreadable { 1nat } else { 0nat }
    }
}

/// The jobs for the files of `es` with a supported extension, in order.
pub open spec fn queued_jobs(es: Seq<Entry>) -> Seq<Job>
    decreases es.len(),
{
    if es.len() == 0 {
        Seq::empty()
    } else {
        queued_jobs(es.drop_last()) + match es.last() {
            Entry::File { src, out, ext } => if extension_format(ext_view(ext)) is Some {
                seq![Job { src, out }]
            } else {
                Seq::empty()
            },
            _ => Seq::empty(),
        }
    }
}

/// The paths of the files of `es` skipped for their extension, in order.
pub open spec fn skipped_paths(es: Seq<Entry>) -> Seq<PathBuf>
    decreases es.len(),
{
    if es.len() == 0 {
        Seq::empty()
    } else {
        skipped_paths(es.drop_last()) + match es.last() {
            Entry::File { src, out, ext } => if extension_format(ext_view(ext)) is Some {
                Seq::empty()
            } else {
                seq![src]
            },
            _ => Seq::empty(),
        }
    }
}

/// Every file of a walk is either queued or skipped, never both: the
/// queued and the skipped files add up to the files.
pub proof fn every_file_queued_or_skipped(es: Seq<Entry>)
    ensures
        queued_jobs(es).len() + skipped_paths(es).len() == file_count(es),
        file_count(es) + unreadable_count(es) <= es.len(),
    decreases es.len(),
{
    if es.len() > 0 {
        every_file_queued_or_skipped(es.drop_last());
    }
}

/// The scan of the entries of a directory walk, in the order walked.
pub fn scan(entries: Vec<Entry>) -> (res: Scan)
    ensures
        res.wf(),
        res.counts.total_files == file_count(entries@),
        res.counts.walk_errors == unreadable_count(entries@),
        res.jobs@ == queued_jobs(entries@),
        res.skipped@ == skipped_paths(entries@),
        res.counts.supported == queued_jobs(entries@).len(),
        res.counts.skipped_ext == skipped_paths(entries@).len(),
{
    let ghost all = entries@;
    let mut entries = entries;
    let mut res = Scan::new();
    let n = entries.len();
    let mut i: usize = 0;
    while i < n
        invariant
            n == all.len(),
            entries@.len() == n,
            i <= n,
            forall|j: int| i <= j < n ==> entries@[j] == all[j],
            res.wf(),
            res.counts.total_files == file_count(all.take(i as int)),
            res.counts.walk_errors == unreadable_count(all.take(i as int)),
            res.jobs@ == queued_jobs(all.take(i as int)),
            res.skipped@ == skipped_paths(all.take(i as int)),
        decreases n - i,
    {
        assert(all.take(i + 1).drop_last() =~= all.take(i as int));
        proof {
            every_file_queued_or_skipped(all.take(i as int));
        }
        let mut entry = Entry::NotAFile;
        entries.set_and_swap(i, &mut entry);
        assert(entry == all[i as int]);
        res.visit(entry);
        assert(res.jobs@ =~= queued_jobs(all.take(i + 1)));
        assert(res.skipped@ =~= skipped_paths(all.take(i + 1)));
        i = i + 1;
    }
    assert(all.take(n as int) =~= all);
    res
}

/// The extensions the converter accepts, in the order they are listed.
pub open spec fn supported_exts() -> Seq<Seq<char>> {
    seq![
        "png"@, "jpg"@, "jpeg"@, "gif"@, "bmp"@, "tif"@, "tiff"@, "ico"@, "tga"@,
        "pnm"@, "pbm"@, "pgm"@, "ppm"@, "pam"@, "qoi"@, "hdr"@, "dds"@, "webp"@,
    ]
}

/// The name, relative to the output directory, of the WebP for the file at
/// `rel` relative to the input directory: the same path with ".webp" added.
pub fn out_name_for(rel: &str) -> (res: String)
    ensures
        res@ == rel@ + ".webp"@,
{
    concat2(rel, ".webp")
}

/// Files at distinct relative paths get distinct output names: appending the
/// WebP suffix keeps the relative path whole in front of it, so no two files
/// of a scan write to the same output.
pub proof fn out_names_distinct(a: Seq<char>, b: Seq<char>)
    requires
        a != b,
    ensures
        a + ".webp"@ != b + ".webp"@,
{
    let suffix = ".webp"@;
    if a + suffix == b + suffix {
        assert((a + suffix).take(a.len() as int) =~= a);
        assert((b + suffix).take(b.len() as int) =~= b);
    }
}

/// The output name of a file is its relative path with the WebP suffix
/// after it: the path can be read back from the name.
pub proof fn out_name_keeps_the_path(a: Seq<char>)
    ensures
        (a + ".webp"@).take(a.len() as int) == a,
        (a + ".webp"@).skip(a.len() as int) == ".webp"@,
{
    assert((a + ".webp"@).take(a.len() as int) =~= a);
    assert((a + ".webp"@).skip(a.len() as int) =~= ".webp"@);
}

/// The accepted extensions, separated by ", ".
pub fn supported_ext_list() -> (res: String)
    ensures
        res@ == joined(supported_exts(), ", "@),
{
    let exts: [&str; 18] = [
        "png", "jpg", "jpeg", "gif", "bmp", "tif", "tiff", "ico", "tga",
        "pnm", "pbm", "pgm", "ppm", "pam", "qoi", "hdr", "dds", "webp",
    ];
    let ghost list = supported_exts();
    assert(forall|i: int| 0 <= i < 18 ==> #[trigger] exts@[i]@ == list[i]);
    let mut res = String::new();
    let mut i: usize = 0;
    while i < 18
        invariant
            i <= 18,
            list == supported_exts(),
            forall|k: int| 0 <= k < 18 ==> #[trigger] exts@[k]@ == list[k],
            res@ == joined(list.take(i as int), ", "@),
        decreases 18 - i,
    {
        assert(list.take(i + 1).drop_last() =~= list.take(i as int));
        if i != 0 {
            res.append(", ");
        } else {
            assert(res@ =~= Seq::<char>::empty());
        }
        res.append(exts[i]);
        i = i + 1;
    }
    assert(list.take(18) =~= list);
    res
}

/// The listed extensions are exactly those the format table accepts.
pub proof fn supported_exts_are_the_accepted_ones(ext: Seq<char>)
    ensures
        supported_exts().contains(ext) <==> format_of(ext) is Some,
{
    let list = supported_exts();
    if format_of(ext) is Some {
        if ext == "png"@ { assert(list[0] == ext); }
        else if ext == "jpg"@ { assert(list[1] == ext); }
        else if ext == "jpeg"@ { assert(list[2] == ext); }
        else if ext == "gif"@ { assert(list[3] == ext); }
        else if ext == "bmp"@ { assert(list[4] == ext); }
        else if ext == "tif"@ { assert(list[5] == ext); }
        else if ext == "tiff"@ { assert(list[6] == ext); }
        else if ext == "ico"@ { assert(list[7] == ext); }
        else if ext == "tga"@ { assert(list[8] == ext); }
        else if ext == "pnm"@ { assert(list[9] == ext); }
        else if ext == "pbm"@ { assert(list[10] == ext); }
        else if ext == "pgm"@ { assert(list[11] == ext); }
        else if ext == "ppm"@ { assert(list[12] == ext); }
        else if ext == "pam"@ { assert(list[13] == ext); }
        else if ext == "qoi"@ { assert(list[14] == ext); }
        else if ext == "hdr"@ { assert(list[15] == ext); }
        else if ext == "dds"@ { assert(list[16] == ext); }
        else { assert(list[17] == ext); }
    }
    if list.contains(ext) {
        let i = choose|i: int| 0 <= i < list.len() && list[i] == ext;
        assert(0 <= i < 18);
    }
}


/// Where the last ',' of `s` stands, or -1.
pub open spec fn last_comma(s: Seq<char>) -> int
    decreases s.len(),
{
    if s.len() == 0 {
        -1
    } else if s.last() == ',' {
        s.len() - 1
    } else {
        last_comma(s.drop_last())
    }
}

/// The last comma stands inside the text, or is -1.
pub proof fn last_comma_bounds(s: Seq<char>)
    ensures
        -1 <= last_comma(s) < s.len(),
    decreases s.len(),
{
    if s.len() > 0 {
        last_comma_bounds(s.drop_last());
    }
}

/// The items of a text listed with ", " between them: the text is cut at
/// each ',' and the space after it is dropped.
pub open spec fn split_list(s: Seq<char>) -> Seq<Seq<char>>
    decreases s.len(),
{
    let i = last_comma(s);
    proof {
        last_comma_bounds(s);
    }
    if i < 0 {
        seq![s]
    } else {
        split_list(s.take(i)) + seq![s.skip(i + 2)]
    }
}

/// The last ',' is the one after which none follows.
proof fn last_comma_is(s: Seq<char>, k: int)
    requires
        0 <= k < s.len(),
        s[k] == ',',
        forall|j: int| k < j < s.len() ==> s[j] != ',',
    ensures
        last_comma(s) == k,
    decreases s.len(),
{
    if s.len() - 1 != k {
        last_comma_is(s.drop_last(), k);
    }
}

/// A text without ',' has none.
proof fn no_comma(s: Seq<char>)
    requires
        forall|j: int| 0 <= j < s.len() ==> s[j] != ',',
    ensures
        last_comma(s) == -1,
    decreases s.len(),
{
    if s.len() > 0 {
        no_comma(s.drop_last());
    }
}

/// Splitting a list joined with ", " gives the list back, when no item holds
/// a ','.
pub proof fn split_undoes_join(list: Seq<Seq<char>>)
    requires
        list.len() >= 1,
        forall|i: int, j: int| 0 <= i < list.len() && 0 <= j < list[i].len() ==> list[i][j] != ',',
    ensures
        split_list(joined(list, ", "@)) == list,
    decreases list.len(),
{
    reveal_strlit(", ");
    let sep = ", "@;
    if list.len() == 1 {
        assert(forall|j: int| 0 <= j < list[0].len() ==> list[0][j] != ',');
        no_comma(list[0]);
        assert(split_list(joined(list, sep)) =~= list);
    } else {
        let front = list.drop_last();
        let a = joined(front, sep);
        let last = list.last();
        let s = a + sep + last;
        assert(joined(list, sep) == s);
        assert(forall|j: int| 0 <= j < last.len() ==> last[j] != ',') by {
            assert(last == list[list.len() - 1]);
        }
        assert(s[a.len() as int] == ',');
        assert forall|j: int| a.len() < j < s.len() implies s[j] != ',' by {
            if j == a.len() + 1 {
                assert(s[j] == ' ');
            } else {
                assert(s[j] == last[j - a.len() - 2]);
            }
        }
        last_comma_is(s, a.len() as int);
        assert(s.take(a.len() as int) =~= a);
        assert(s.skip(a.len() as int + 2) =~= last);
        assert forall|i: int, j: int| 0 <= i < front.len() && 0 <= j < front[i].len() implies front[i][j] != ',' by {
            assert(front[i] == list[i]);
        }
        split_undoes_join(front);
        assert(split_list(s) =~= front.push(last));
        assert(front.push(last) =~= list);
    }
}

/// The printed list of extensions, split back at ", ", gives eighteen
/// different extensions, and they are exactly those the format table accepts.
pub proof fn printed_list_is_the_accepted_one()
    ensures
        split_list(joined(supported_exts(), ", "@)) == supported_exts(),
        supported_exts().len() == 18,
        forall|i: int, j: int| 0 <= i < j < 18 ==> supported_exts()[i] != supported_exts()[j],
        forall|e: Seq<char>| supported_exts().contains(e) <==> format_of(e) is Some,
{
    reveal_strlit("png"); reveal_strlit("jpg"); reveal_strlit("jpeg"); reveal_strlit("gif");
    reveal_strlit("bmp"); reveal_strlit("tif"); reveal_strlit("tiff"); reveal_strlit("ico");
    reveal_strlit("tga"); reveal_strlit("pnm"); reveal_strlit("pbm"); reveal_strlit("pgm");
    reveal_strlit("ppm"); reveal_strlit("pam"); reveal_strlit("qoi"); reveal_strlit("hdr");
    reveal_strlit("dds"); reveal_strlit("webp");
    let list = supported_exts();
    assert forall|i: int, j: int| 0 <= i < list.len() && 0 <= j < list[i].len() implies list[i][j] != ',' by {
        assert(0 <= i < 18);
    }
    split_undoes_join(list);
    assert forall|i: int, j: int| 0 <= i < j < 18 implies list[i] != list[j] by {
        if list[i] == list[j] {
            assert(list[i].len() == list[j].len());
            assert(list[i][0] == list[j][0]);
            assert(list[i][1] == list[j][1]);
            assert(list[i][2] == list[j][2]);
        }
    }
    assert forall|e: Seq<char>| list.contains(e) <==> format_of(e) is Some by {
        supported_exts_are_the_accepted_ones(e);
    }
}

} // verus!
