//! The conversion of one source file, as a state machine.
//!
//! Converting a file alternates work on the file system with decisions: is
//! the target already there, how big is the source, can it be decoded, what
//! comes of writing the result. `Conversion` holds the decisions. Its driver
//! performs each `Action` it is handed and reports the outcome as an `Event`,
//! until the action is `Finish`, which carries the result of the file.

use vstd::prelude::*;
use crate::codec::{converts, produced, transcode, ConvertError, Encoded};
use crate::picture::decoding_can_fail;
use crate::convert::{empty, extension_format, fail, text_opt, ConvConfig, FailReason, FileResult, InputFormat, Status};
use crate::text::{concat2, concat4};

verus! {

/// Where a conversion stands.
#[derive(Debug, Clone, Copy, PartialEq, Eq, Structural)]
pub enum Phase {
    /// Waiting to learn whether the target file exists.
    CheckingTarget,
    /// Waiting for the size of the source file.
    ReadingMetadata,
    /// Waiting for the contents of the source file.
    ReadingSource,
    /// Waiting for the encoded file to be written.
    Writing,
    /// The result has been handed out.
    Finished,
}

/// The order in which the phases follow each other.
pub open spec fn rank(p: Phase) -> int {
    match p {
        Phase::CheckingTarget => 0,
        Phase::ReadingMetadata => 1,
        Phase::ReadingSource => 2,
        Phase::Writing => 3,
        Phase::Finished => 4,
    }
}

/// What the driver is asked to do next.
#[derive(Debug)]
pub enum Action {
    /// Find out whether the target file exists; answer with `TargetExists`.
    CheckTarget,
    /// Read the size of the source file; answer with `Metadata` or `MetadataFailed`.
    ReadMetadata,
    /// Read the source file; answer with `Source` or `SourceFailed`.
    ReadSource,
    /// Write these bytes to the target; answer with `Written` or `WriteFailed`.
    Write(Vec<u8>),
    /// The conversion is over, with this result.
    Finish(FileResult),
}

/// What the driver reports back.
#[derive(Debug)]
pub enum Event {
    TargetExists(bool),
    Metadata(u64),
    MetadataFailed(String),
    Source(Vec<u8>),
    SourceFailed(String),
    Written,
    /// Writing failed: the target as displayed, and the error text.
    WriteFailed(String, String),
}

/// The state of the conversion of one file.
#[derive(Debug)]
pub struct Conversion {
    pub cfg: ConvConfig,
    /// The format the source file's extension names, if any.
    pub format: Option<InputFormat>,
    pub phase: Phase,
    /// The size of the source file, once known.
    pub in_bytes: u64,
    /// The size of the encoded image, once encoded.
    pub width: u32,
    pub height: u32,
    /// The size of the encoded file, once encoded.
    pub out_bytes: u64,
}

pub open spec fn msg_read_failed() -> Seq<char> { "读取文件失败: "@ }
pub open spec fn msg_unsupported() -> Seq<char> { "不支持的扩展名"@ }
pub open spec fn msg_decode_failed() -> Seq<char> { "解码错误: "@ }
pub open spec fn msg_encode_failed() -> Seq<char> { "WebP 编码失败"@ }
pub open spec fn msg_write_before() -> Seq<char> { "写入 "@ }
pub open spec fn msg_write_after() -> Seq<char> { " 失败: "@ }

impl Conversion {
    /// The conversion can go on: its quality is one the encoder takes, and it
    /// has not finished.
    pub open spec fn wf(self) -> bool {
        &&& self.cfg.quality <= 100
        &&& self.phase != Phase::Finished
        &&& self.phase == Phase::ReadingSource ==> self.format is Some
    }

    /// `event` answers the action that led to `self.phase`.
    pub open spec fn expects(self, event: Event) -> bool {
        match self.phase {
            Phase::CheckingTarget => event is TargetExists,
            Phase::ReadingMetadata => event is Metadata || event is MetadataFailed,
            Phase::ReadingSource => event is Source || event is SourceFailed,
            Phase::Writing => event is Written || event is WriteFailed,
            Phase::Finished => false,
        }
    }

    /// `self` is the same conversion as `pre`, in `phase`.
    pub open spec fn moved(self, pre: Conversion, phase: Phase) -> bool {
        &&& self.cfg == pre.cfg
        &&& self.format == pre.format
        &&& self.phase == phase
    }

    /// `self` and `action` finish `pre` with a result that `r` satisfies.
    pub open spec fn finished(self, pre: Conversion, action: Action, r: spec_fn(FileResult) -> bool) -> bool {
        &&& self.moved(pre, Phase::Finished)
        &&& action matches Action::Finish(res) && r(res)
    }
}

/// `conv` and `action` begin the conversion under `cfg` of a file with
/// extension `ext`: the target is looked at first unless overwriting is on.
pub open spec fn starts(cfg: ConvConfig, ext: Option<Seq<char>>, conv: Conversion, action: Action) -> bool {
    &&& conv.cfg == cfg
    &&& conv.format == extension_format(ext)
    &&& conv.in_bytes == 0 && conv.width == 0 && conv.height == 0 && conv.out_bytes == 0
    &&& if cfg.overwrite {
        conv.phase == Phase::ReadingMetadata && action is ReadMetadata
    } else {
        conv.phase == Phase::CheckingTarget && action is CheckTarget
    }
}

/// What converting the contents `bytes` gives: a possible outcome of the
/// conversion, and what it leads to.
pub open spec fn source_steps(pre: Conversion, bytes: Seq<u8>, post: Conversion, action: Action) -> bool {
    match pre.format {
        None => false,
        Some(format) => exists|r: Result<Encoded, ConvertError>|
            #![trigger transcoded_steps(pre, r, post, action)]
            converts(bytes, format, pre.cfg, r) && transcoded_steps(pre, r, post, action),
    }
}

/// What the outcome `res` of converting the source's contents leads to: the
/// encoded file is handed out for writing, a failure ends the conversion.
pub open spec fn transcoded_steps(pre: Conversion, res: Result<Encoded, ConvertError>, post: Conversion, action: Action) -> bool {
    match res {
        Ok(e) => {
            &&& post.moved(pre, Phase::Writing)
            &&& post.in_bytes == pre.in_bytes
            &&& post.width == e.width && post.height == e.height
            &&& post.out_bytes == e.bytes@.len()
            &&& action == Action::Write(e.bytes)
        },
        Err(ConvertError::Decode(m)) => post.finished(pre, action, |r: FileResult|
            r.is_failure(FailReason::Decode, msg_decode_failed() + m@)),
        Err(ConvertError::Encode) => post.finished(pre, action, |r: FileResult|
            r.is_failure(FailReason::Encode, msg_encode_failed())),
    }
}

/// One step of a conversion: from `pre`, on `event`, to `post`, asking for `action`.
pub open spec fn steps(pre: Conversion, event: Event, post: Conversion, action: Action) -> bool {
    match event {
        Event::TargetExists(true) => post.finished(pre, action, |r: FileResult| r.is_bare(Status::Exists)),
        Event::TargetExists(false) => {
            &&& post.moved(pre, Phase::ReadingMetadata)
            &&& post.in_bytes == pre.in_bytes && post.width == pre.width
            &&& post.height == pre.height && post.out_bytes == pre.out_bytes
            &&& action is ReadMetadata
        },
        Event::MetadataFailed(e) => post.finished(pre, action, |r: FileResult| r.is_failure(FailReason::Read, msg_read_failed() + e@)),
        Event::Metadata(size) => match pre.format {
            None => post.finished(pre, action, |r: FileResult| r.is_failure(FailReason::Decode, msg_unsupported())),
            Some(_) => {
                &&& post.moved(pre, Phase::ReadingSource)
                &&& post.in_bytes == size && post.width == pre.width
                &&& post.height == pre.height && post.out_bytes == pre.out_bytes
                &&& action is ReadSource
            },
        },
        Event::SourceFailed(e) => post.finished(pre, action, |r: FileResult| r.is_failure(FailReason::Read, msg_read_failed() + e@)),
        Event::Source(bytes) => source_steps(pre, bytes@, post, action),
        Event::Written => post.finished(pre, action, |r: FileResult| {
            &&& r.status == Status::Done
            &&& r.fail_reason is None && r.err is None
            &&& r.width == pre.width && r.height == pre.height
            &&& r.in_bytes == pre.in_bytes && r.out_bytes == pre.out_bytes
        }),
        Event::WriteFailed(target, reason) => post.finished(pre, action, |r: FileResult|
            r.is_failure(FailReason::Write, msg_write_before() + target@ + msg_write_after() + reason@)),
    }
}

impl Conversion {
    /// Begins the conversion under `cfg` of a file whose extension is `ext`.
    pub fn start(cfg: ConvConfig, ext: Option<&str>) -> (res: (Conversion, Action))
        requires
            cfg.quality <= 100,
        ensures
            starts(cfg, text_opt(ext), res.0, res.1),
            res.0.wf(),
    {
        let format = crate::convert::format_for_extension(ext);
        let conv = Conversion {
            cfg,
            format,
            phase: if cfg.overwrite { Phase::ReadingMetadata } else { Phase::CheckingTarget },
            in_bytes: 0,
            width: 0,
            height: 0,
            out_bytes: 0,
        };
        let action = if cfg.overwrite { Action::ReadMetadata } else { Action::CheckTarget };
        (conv, action)
    }

    /// Ends the conversion with `r`.
    fn finish(&mut self, r: FileResult) -> (action: Action)
        ensures
            final(self).cfg == old(self).cfg,
            final(self).format == old(self).format,
            final(self).phase == Phase::Finished,
            action == Action::Finish(r),
    {
        self.phase = Phase::Finished;
        Action::Finish(r)
    }

    /// Takes the outcome of converting the source's contents: the encoded file
    /// is handed out for writing, a failure ends the conversion.
    pub fn on_transcoded(&mut self, res: Result<Encoded, ConvertError>) -> (action: Action)
        requires
            old(self).wf(),
            old(self).phase == Phase::ReadingSource,
        ensures
            transcoded_steps(*old(self), res, *final(self), action),
    {
        match res {
            Ok(encoded) => {
                self.width = encoded.width;
                self.height = encoded.height;
                self.out_bytes = encoded.bytes.len() as u64;
                self.phase = Phase::Writing;
                Action::Write(encoded.bytes)
            },
            Err(ConvertError::Decode(msg)) => {
                self.finish(fail(FailReason::Decode, concat2("解码错误: ", msg.as_str())))
            },
            Err(ConvertError::Encode) => {
                self.finish(fail(FailReason::Encode, String::from_str("WebP 编码失败")))
            },
        }
    }

    /// Takes the outcome of the last action and decides the next one.
    pub fn step(&mut self, event: Event) -> (action: Action)
        requires
            old(self).wf(),
            old(self).expects(event),
        ensures
            steps(*old(self), event, *final(self), action),
            rank(final(self).phase) > rank(old(self).phase),
            final(self).phase != Phase::Finished ==> final(self).wf(),
    {
        let ghost pre = *self;
        match event {
            Event::TargetExists(exists) => {
                if exists {
                    self.finish(empty(Status::Exists))
                } else {
                    self.phase = Phase::ReadingMetadata;
                    Action::ReadMetadata
                }
            },
            Event::MetadataFailed(e) => {
                self.finish(fail(FailReason::Read, concat2("读取文件失败: ", e.as_str())))
            },
            Event::Metadata(size) => {
                if self.format.is_none() {
                    self.finish(fail(FailReason::Decode, String::from_str("不支持的扩展名")))
                } else {
                    self.in_bytes = size;
                    self.phase = Phase::ReadingSource;
                    Action::ReadSource
                }
            },
            Event::SourceFailed(e) => {
                self.finish(fail(FailReason::Read, concat2("读取文件失败: ", e.as_str())))
            },
            Event::Source(bytes) => {
                let format = self.format.unwrap();
                let res = transcode(bytes.as_slice(), format, &self.cfg);
                let ghost r = res;
                let action = self.on_transcoded(res);
                assert(transcoded_steps(pre, r, *self, action));
                action
            },
            Event::Written => {
                let r = FileResult {
                    status: Status::Done,
                    fail_reason: None,
                    err: None,
                    width: self.width,
                    height: self.height,
                    in_bytes: self.in_bytes,
                    out_bytes: self.out_bytes,
                };
                self.finish(r)
            },
            Event::WriteFailed(target, reason) => {
                self.finish(fail(FailReason::Write, concat4("写入 ", target.as_str(), " 失败: ", reason.as_str())))
            },
        }
    }
}


/// Without overwriting, a target that already exists is left alone: the
/// first thing asked is whether it exists, and when it does the conversion
/// ends as skipped, before the source is read or anything is written.
pub proof fn existing_target_is_kept(
    cfg: ConvConfig,
    ext: Option<Seq<char>>,
    c1: Conversion,
    a1: Action,
    c2: Conversion,
    a2: Action,
)
    requires
        !cfg.overwrite,
        starts(cfg, ext, c1, a1),
        steps(c1, Event::TargetExists(true), c2, a2),
    ensures
        a1 is CheckTarget,
        c2.phase == Phase::Finished,
        a2 matches Action::Finish(r) && r.is_bare(Status::Exists),
{
}

/// With overwriting, whether the target exists is never asked: the
/// conversion goes straight to the source.
pub proof fn overwrite_skips_the_check(cfg: ConvConfig, ext: Option<Seq<char>>, c1: Conversion, a1: Action)
    requires
        cfg.overwrite,
        starts(cfg, ext, c1, a1),
    ensures
        a1 is ReadMetadata,
        c1.phase == Phase::ReadingMetadata,
{
}

/// The result of a file is coherent: it has a reason and a message exactly
/// when it failed, and sizes only when it was converted.
pub open spec fn coherent(r: FileResult) -> bool {
    &&& (r.status == Status::Failed) == (r.fail_reason is Some)
    &&& (r.status == Status::Failed) == (r.err is Some)
    &&& r.status != Status::Done ==> (r.width == 0 && r.height == 0 && r.in_bytes == 0 && r.out_bytes == 0)
}

/// Every result a conversion ends with is coherent.
pub proof fn results_are_coherent(pre: Conversion, event: Event, post: Conversion, action: Action)
    requires
        steps(pre, event, post, action),
        action is Finish,
    ensures
        coherent(action->Finish_0),
{
}

/// The source file's contents turned into a written file: `file` of `width`
/// by `height` is the WebP of the image decoded from `bytes`, read as the
/// extension's format or, only where that failed, as the content's format.
pub open spec fn written_from(pre: Conversion, bytes: Seq<u8>, file: Seq<u8>, width: u32, height: u32) -> bool {
    pre.format matches Some(f) && {
        ||| produced(bytes, Some(f), pre.cfg, file, width, height)
        ||| produced(bytes, None, pre.cfg, file, width, height) && decoding_can_fail(bytes, f)
    }
}

/// Only the WebP of the source image is ever handed out for writing: a
/// non-empty file, encoded from the decoded image's pixels at the size that
/// the resizing rule gives.
pub proof fn only_encoded_files_are_written(pre: Conversion, bytes: Vec<u8>, post: Conversion, action: Action)
    requires
        steps(pre, Event::Source(bytes), post, action),
        action is Write,
    ensures
        action->Write_0@.len() > 0,
        post.out_bytes == action->Write_0@.len(),
        written_from(pre, bytes@, action->Write_0@, post.width, post.height),
{
    let f = pre.format->Some_0;
    let r = choose|r: Result<Encoded, ConvertError>|
        #![trigger transcoded_steps(pre, r, post, action)]
        converts(bytes@, f, pre.cfg, r) && transcoded_steps(pre, r, post, action);
    assert(converts(bytes@, f, pre.cfg, r) && transcoded_steps(pre, r, post, action));
}

/// A file reported as converted has a non-empty output, the size of its
/// source, and is the WebP of the source's image at the size the resizing
/// rule gives.
pub proof fn converted_result_reports_the_output(
    c0: Conversion,
    bytes: Vec<u8>,
    c1: Conversion,
    a1: Action,
    c2: Conversion,
    a2: Action,
)
    requires
        steps(c0, Event::Source(bytes), c1, a1),
        a1 is Write,
        steps(c1, Event::Written, c2, a2),
    ensures
        a2 matches Action::Finish(r) && {
            &&& r.status == Status::Done
            &&& r.out_bytes > 0
            &&& r.out_bytes == a1->Write_0@.len()
            &&& r.in_bytes == c0.in_bytes
            &&& written_from(c0, bytes@, a1->Write_0@, r.width, r.height)
        },
{
    only_encoded_files_are_written(c0, bytes, c1, a1);
}

} // verus!
