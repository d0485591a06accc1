//! Decoding, resizing and WebP encoding of in-memory images.
//!
//! The pixel work is done by the `image` and `webp` crates; this module holds
//! the decisions around it: which decoder to try, when and to what size an
//! image is shrunk, and when an image is handed to the encoder at all.
//!
//! An image is described by where its pixels come from (`Pixels`, in
//! `picture`): decoded from some bytes, or resized from another image. The
//! pixel buffers of an image are named over that description, so that what
//! reaches the encoder is tied to the source file.

use vstd::prelude::*;
use webp::Encoder;
use crate::convert::{ConvConfig, InputFormat};
use crate::picture::{
    content_decoding_can_fail, decode_as, decode_by_content, decoded_view, decoding_can_fail,
    resize_exact, rgb_of, rgb_pixels, rgba_of, rgba_pixels, Picture, PictureView, Pixels,
};

verus! {

/// The largest width or height that the WebP encoder accepts.
pub const WEBP_MAX_DIMENSION: u32 = 16383;

/// Encoding these RGBA pixels of this size at `quality` can fail: one run of
/// the encoder did.
pub uninterp spec fn webp_rgba_can_fail(pixels: Seq<u8>, width: u32, height: u32, quality: u8) -> bool;

/// Encoding these RGB pixels of this size at `quality` can fail: one run of
/// the encoder did.
pub uninterp spec fn webp_rgb_can_fail(pixels: Seq<u8>, width: u32, height: u32, quality: u8) -> bool;

/// `file` is a WebP file that `webp` can encode from these RGBA pixels of
/// this size at `quality`.
pub uninterp spec fn webp_from_rgba_pixels(file: Seq<u8>, pixels: Seq<u8>, width: u32, height: u32, quality: u8) -> bool;

/// `file` is a WebP file that `webp` can encode from these RGB pixels of
/// this size at `quality`.
pub uninterp spec fn webp_from_rgb_pixels(file: Seq<u8>, pixels: Seq<u8>, width: u32, height: u32, quality: u8) -> bool;


/// `webp::Encoder::from_rgba(..).encode_simple(false, quality)`: lossy
/// encoding with libwebp's default configuration. The encoder panics on a
/// buffer shorter than the size asks for, so that is required; the size is
/// also kept to what WebP can hold. Whether encoding succeeds, and which
/// bytes it gives, are not stated as functions of the arguments (libwebp
/// picks its routines by CPU, and can run out of memory): a file it gives is
/// one it can encode from these pixels.
#[verifier::external_body]
fn webp_from_rgba(pixels: &[u8], width: u32, height: u32, quality: u8) -> (res: Option<Vec<u8>>)
    requires
        pixels@.len() >= 4 * width * height,
        1 <= width <= WEBP_MAX_DIMENSION,
        1 <= height <= WEBP_MAX_DIMENSION,
        quality <= 100,
    ensures
        res matches Some(v) ==> webp_from_rgba_pixels(v@, pixels@, width, height, quality),
        res is None ==> webp_rgba_can_fail(pixels@, width, height, quality),
{
    match Encoder::from_rgba(pixels, width, height).encode_simple(false, quality.into()) {
        Ok(memory) => Some(memory.to_vec()),
        Err(_) => None,
    }
}

/// `webp::Encoder::from_rgb(..).encode_simple(false, quality)`, under the
/// same conditions as `webp_from_rgba` with three bytes per pixel.
#[verifier::external_body]
fn webp_from_rgb(pixels: &[u8], width: u32, height: u32, quality: u8) -> (res: Option<Vec<u8>>)
    requires
        pixels@.len() >= 3 * width * height,
        1 <= width <= WEBP_MAX_DIMENSION,
        1 <= height <= WEBP_MAX_DIMENSION,
        quality <= 100,
    ensures
        res matches Some(v) ==> webp_from_rgb_pixels(v@, pixels@, width, height, quality),
        res is None ==> webp_rgb_can_fail(pixels@, width, height, quality),
{
    match Encoder::from_rgb(pixels, width, height).encode_simple(false, quality.into()) {
        Ok(memory) => Some(memory.to_vec()),
        Err(_) => None,
    }
}

/// Decodes `bytes` as `format`, or as the format their content shows when no
/// format is given.
pub fn decode_bytes(bytes: &[u8], format: Option<InputFormat>) -> (res: Result<Picture, String>)
    ensures
        res matches Ok(p) ==> p@ == decoded_view(bytes@, format),
        res is Err ==> match format {
            Some(f) => decoding_can_fail(bytes@, f),
            None => content_decoding_can_fail(bytes@),
        },
{
    match format {
        Some(f) => decode_as(bytes, f),
        None => decode_by_content(bytes),
    }
}

/// Finishes decoding after a first attempt with the declared format: its
/// image when it succeeded, otherwise whatever reading the bytes as the format
/// their content shows gives.
pub fn fall_back_to_content(bytes: &[u8], first: Result<Picture, String>) -> (res: Result<Picture, String>)
    ensures
        first is Ok ==> res == first,
        first is Err ==> (res matches Ok(p) ==> p@ == decoded_view(bytes@, None)),
        first is Err ==> (res is Err ==> content_decoding_can_fail(bytes@)),
{
    match first {
        Ok(pic) => Ok(pic),
        Err(_) => decode_bytes(bytes, None),
    }
}

/// The image a file whose extension names `format` decodes to: read as that
/// format first, and, only when that fails, as the format its content shows.
pub open spec fn is_decoding_of(p: PictureView, bytes: Seq<u8>, format: InputFormat) -> bool {
    ||| p == decoded_view(bytes, Some(format))
    ||| p == decoded_view(bytes, None) && decoding_can_fail(bytes, format)
}

/// Decodes the contents of a file whose extension names `format`; a file whose
/// content is of another format than its extension says is still decoded.
pub fn decode(bytes: &[u8], format: InputFormat) -> (res: Result<Picture, String>)
    ensures
        res matches Ok(p) ==> is_decoding_of(p@, bytes@, format),
        res is Err ==> decoding_can_fail(bytes@, format) && content_decoding_can_fail(bytes@),
{
    let first = decode_bytes(bytes, Some(format));
    fall_back_to_content(bytes, first)
}

/// The height of an image `width` by `height` scaled to `new_width` wide,
/// rounded down and at least 1.
pub open spec fn scaled_height(width: u32, height: u32, new_width: u32) -> u32 {
    let h = (height * new_width) / (width as int);
    if h >= 1 { h as u32 } else { 1 }
}

/// The size an image of `width` by `height` is converted at: shrunk to
/// `limit` wide, keeping its aspect ratio, when resizing is on and the image is
/// wider than `limit`; its own size otherwise.
pub open spec fn resize_target(resize: bool, limit: u32, width: u32, height: u32) -> (u32, u32) {
    if !resize || width <= limit {
        (width, height)
    } else {
        (limit, scaled_height(width, height, limit))
    }
}

/// The size at which `cfg` converts an image of `width` by `height`.
pub fn target_size(cfg: &ConvConfig, width: u32, height: u32) -> (res: (u32, u32))
    ensures
        res == resize_target(cfg.resize, cfg.width, width, height),
{
    if !cfg.resize || width <= cfg.width {
        return (width, height);
    }
    let limit = cfg.width;
    assert((height as int) * (limit as int) <= 0xffff_ffff_ffff_ffff) by (nonlinear_arith);
    let product: u64 = (height as u64) * (limit as u64);
    let scaled: u64 = product / (width as u64);
    proof {
        assert(product <= (height as int) * (width as int)) by (nonlinear_arith)
            requires
                product == (height as int) * (limit as int),
                limit < width,
        ;
        assert(scaled <= height) by (nonlinear_arith)
            requires
                scaled == (product as int) / (width as int),
                product <= (height as int) * (width as int),
                width > 0,
        ;
    }
    let new_height: u32 = if scaled >= 1 { scaled as u32 } else { 1 };
    (limit, new_height)
}

/// Resizing only ever shrinks: neither side of the result exceeds the
/// source's (for an image at least one pixel high; a zero-high image that is
/// resized comes out one pixel high).
pub proof fn resize_never_enlarges(resize: bool, limit: u32, width: u32, height: u32)
    requires
        height >= 1,
    ensures
        resize_target(resize, limit, width, height).0 <= width,
        resize_target(resize, limit, width, height).1 <= height,
{
    if resize && width > limit {
        let h = (height * limit) / (width as int);
        assert(height * limit <= height * width) by (nonlinear_arith)
            requires
                limit < width,
        ;
        assert(h <= height) by (nonlinear_arith)
            requires
                h == (height * limit) / (width as int),
                height * limit <= height * width,
                width > 0,
        ;
    }
}

/// An image is resized only when resizing is on and it is wider than the
/// limit, and then it comes out exactly as wide as the limit.
pub proof fn resize_only_when_wider(resize: bool, limit: u32, width: u32, height: u32)
    ensures
        (!resize || width <= limit) ==> resize_target(resize, limit, width, height) == (width, height),
        (resize && width > limit) ==> resize_target(resize, limit, width, height).0 == limit,
{
}

/// Resizing keeps the aspect ratio: the new height is the old height scaled
/// by the same factor as the width, rounded down (and at least 1).
pub proof fn resize_keeps_aspect_ratio(limit: u32, width: u32, height: u32)
    requires
        width > limit,
    ensures
        ({
            let t = resize_target(true, limit, width, height);
            &&& t.1 >= 1
            &&& (height * limit >= width ==> t.1 * width <= height * limit < (t.1 + 1) * width)
            &&& (height * limit < width ==> t.1 == 1)
        }),
{
    let p = height * limit;
    let q = p / (width as int);
    assert(q * width <= p < (q + 1) * width) by (nonlinear_arith)
        requires
            q == p / (width as int),
            width > 0,
    ;
    assert(q <= height) by (nonlinear_arith)
        requires
            q == p / (width as int),
            p == height * limit,
            limit < width,
    ;
    if p >= width {
        assert(q >= 1) by (nonlinear_arith)
            requires
                q == p / (width as int),
                p >= width,
                width > 0,
        ;
    } else {
        assert(q == 0) by (nonlinear_arith)
            requires
                q == p / (width as int),
                0 <= p < width,
        ;
    }
}

/// Resizing a result again changes nothing: a converted image is never
/// wider than the limit.
pub proof fn resize_is_idempotent(resize: bool, limit: u32, width: u32, height: u32)
    ensures
        ({
            let t = resize_target(resize, limit, width, height);
            resize_target(resize, limit, t.0, t.1) == t
        }),
{
}

/// The image `cfg` converts `p` at: `p` itself unless resizing is on and `p`
/// is wider than the limit, and then `p` resized to the target size.
pub open spec fn resized_view(p: PictureView, cfg: ConvConfig) -> PictureView {
    if !cfg.resize || p.width <= cfg.width {
        p
    } else {
        let t = resize_target(cfg.resize, cfg.width, p.width, p.height);
        PictureView {
            width: t.0,
            height: t.1,
            alpha: p.alpha,
            source: Pixels::Resized { source: Box::new(p.source), width: t.0, height: t.1 },
        }
    }
}

/// Shrinks `pic` to the size `cfg` asks for, or hands it back unchanged.
pub fn apply_resize(pic: Picture, cfg: &ConvConfig) -> (res: Picture)
    ensures
        res@ == resized_view(pic@, *cfg),
        (res@.width, res@.height) == resize_target(cfg.resize, cfg.width, pic@.width, pic@.height),
        (!cfg.resize || pic@.width <= cfg.width) ==> res == pic,
{
    if !cfg.resize || pic.width() <= cfg.width {
        return pic;
    }
    let (w, h) = target_size(cfg, pic.width(), pic.height());
    resize_exact(&pic, w, h)
}

/// Whether the WebP encoder accepts an image of this size.
pub open spec fn webp_size_ok(width: u32, height: u32) -> bool {
    1 <= width <= WEBP_MAX_DIMENSION && 1 <= height <= WEBP_MAX_DIMENSION
}

/// `file` is a WebP encoding of the image `p` at `quality`: of its RGBA
/// pixels when it has alpha, of its RGB pixels otherwise.
pub open spec fn encoded_by(file: Seq<u8>, p: PictureView, quality: u8) -> bool {
    if p.alpha {
        webp_from_rgba_pixels(file, rgba_of(p.source), p.width, p.height, quality)
    } else {
        webp_from_rgb_pixels(file, rgb_of(p.source), p.width, p.height, quality)
    }
}

/// The encoder can refuse the image `p` at `quality`: a run of it failed, or
/// gave an empty file.
pub open spec fn encoding_refused(p: PictureView, quality: u8) -> bool {
    if p.alpha {
        ||| webp_rgba_can_fail(rgba_of(p.source), p.width, p.height, quality)
        ||| webp_from_rgba_pixels(Seq::empty(), rgba_of(p.source), p.width, p.height, quality)
    } else {
        ||| webp_rgb_can_fail(rgb_of(p.source), p.width, p.height, quality)
        ||| webp_from_rgb_pixels(Seq::empty(), rgb_of(p.source), p.width, p.height, quality)
    }
}

/// What the encoder gave, where it gave a non-empty file; nothing otherwise.
pub fn non_empty_output(out: Option<Vec<u8>>) -> (res: Option<Vec<u8>>)
    ensures
        res == (if out matches Some(v) && v@.len() > 0 { out } else { None::<Vec<u8>> }),
{
    match out {
        Some(v) => if v.len() > 0 { Some(v) } else { None },
        None => None,
    }
}

/// Encodes `pic` as lossy WebP at `quality`. A picture of a size the encoder
/// rejects gives `None`, and so does an encoder run that fails or gives no
/// bytes.
pub fn encode_webp(pic: &Picture, quality: u8) -> (res: Option<Vec<u8>>)
    requires
        quality <= 100,
    ensures
        !webp_size_ok(pic@.width, pic@.height) ==> res is None,
        res matches Some(v) ==> {
            &&& webp_size_ok(pic@.width, pic@.height)
            &&& v@.len() > 0
            &&& encoded_by(v@, pic@, quality)
        },
        res is None ==> !webp_size_ok(pic@.width, pic@.height) || encoding_refused(pic@, quality),
{
    let w = pic.width();
    let h = pic.height();
    if w < 1 || w > WEBP_MAX_DIMENSION || h < 1 || h > WEBP_MAX_DIMENSION {
        return None;
    }
    let out = if pic.has_alpha() {
        let pixels = rgba_pixels(pic);
        webp_from_rgba(pixels.as_slice(), w, h, quality)
    } else {
        let pixels = rgb_pixels(pic);
        webp_from_rgb(pixels.as_slice(), w, h, quality)
    };
    proof {
        if out is Some && out->0@.len() == 0 {
            assert(out->0@ =~= Seq::<u8>::empty());
        }
    }
    non_empty_output(out)
}

/// An encoded WebP file and the size of the image in it.
pub struct Encoded {
    pub bytes: Vec<u8>,
    pub width: u32,
    pub height: u32,
}

/// Why the bytes of a file could not be turned into WebP.
pub enum ConvertError {
    /// Neither the declared format nor the content's format decoded; the text
    /// of the last decoding error.
    Decode(String),
    /// The encoder rejected the image or gave no bytes.
    Encode,
}

/// `file`, of `width` by `height`, is the WebP that converting the image
/// decoded from `bytes` as `format` under `cfg` gives.
pub open spec fn produced(bytes: Seq<u8>, format: Option<InputFormat>, cfg: ConvConfig, file: Seq<u8>, width: u32, height: u32) -> bool {
    let p = resized_view(decoded_view(bytes, format), cfg);
    &&& width == p.width && height == p.height
    &&& webp_size_ok(width, height)
    &&& file.len() > 0
    &&& encoded_by(file, p, cfg.quality)
}

/// Converting the image `d` under `cfg` can be refused: the resized image has
/// a size the encoder does not take, or the encoder can refuse it.
pub open spec fn encoding_refused_at(d: PictureView, cfg: ConvConfig) -> bool {
    let p = resized_view(d, cfg);
    !webp_size_ok(p.width, p.height) || encoding_refused(p, cfg.quality)
}

/// Resizes the decoded `pic` as `cfg` asks and encodes it as WebP.
pub fn convert_picture(pic: Picture, cfg: &ConvConfig) -> (res: Option<Encoded>)
    requires
        cfg.quality <= 100,
    ensures
        ({
            let p = resized_view(pic@, *cfg);
            &&& !webp_size_ok(p.width, p.height) ==> res is None
            &&& res matches Some(e) ==> {
                &&& e.width == p.width && e.height == p.height
                &&& webp_size_ok(e.width, e.height)
                &&& e.bytes@.len() > 0
                &&& encoded_by(e.bytes@, p, cfg.quality)
            }
            &&& res is None ==> encoding_refused_at(pic@, *cfg)
        }),
{
    let pic = apply_resize(pic, cfg);
    match encode_webp(&pic, cfg.quality) {
        Some(data) => Some(Encoded { bytes: data, width: pic.width(), height: pic.height() }),
        None => None,
    }
}

/// `res` is a possible outcome of converting `bytes` of a file whose
/// extension names `format` under `cfg`: a file it gives is the WebP of the
/// image decoded from the bytes, read as `format` or, failing that, as the
/// format their content shows; a decoding failure means both readings
/// failed; an encoding failure means the decoded image was refused.
pub open spec fn converts(bytes: Seq<u8>, format: InputFormat, cfg: ConvConfig, res: Result<Encoded, ConvertError>) -> bool {
    match res {
        Ok(e) => {
            ||| produced(bytes, Some(format), cfg, e.bytes@, e.width, e.height)
            ||| produced(bytes, None, cfg, e.bytes@, e.width, e.height) && decoding_can_fail(bytes, format)
        },
        Err(ConvertError::Decode(_)) => decoding_can_fail(bytes, format) && content_decoding_can_fail(bytes),
        Err(ConvertError::Encode) => {
            ||| encoding_refused_at(decoded_view(bytes, Some(format)), cfg)
            ||| decoding_can_fail(bytes, format) && encoding_refused_at(decoded_view(bytes, None), cfg)
        },
    }
}

/// Decodes the bytes of a file whose extension names `format`, resizes the
/// image as `cfg` asks and encodes it as WebP.
pub fn transcode(bytes: &[u8], format: InputFormat, cfg: &ConvConfig) -> (res: Result<Encoded, ConvertError>)
    requires
        cfg.quality <= 100,
    ensures
        converts(bytes@, format, *cfg, res),
{
    let pic = match decode(bytes, format) {
        Ok(pic) => pic,
        Err(msg) => return Err(ConvertError::Decode(msg)),
    };
    match convert_picture(pic, cfg) {
        Some(e) => Ok(e),
        None => Err(ConvertError::Encode),
    }
}

} // verus!
