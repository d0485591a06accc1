//! Decoded images: a picture holds the image the `image` crate decoded or
//! resized, with its size, whether it has alpha, and where its pixels come
//! from. Only the decoding and resizing functions of this module make a
//! picture, so what the view of a picture states is what the image inside it
//! holds: a picture said to be resized holds the resampled pixels.

use vstd::prelude::*;
use std::io::Cursor;
use image::imageops::FilterType;
use image::DynamicImage;
use image::ImageFormat as Fmt;
use image::ImageReader;
use crate::convert::InputFormat;
use crate::convert::InputFormat::{Bmp, Dds, Gif, Hdr, Ico, Jpeg, Png, Pnm, Qoi, Tga, Tiff, WebP};

verus! {

#[verifier::external_type_specification]
#[verifier::external_body]
pub struct ExDynamicImage(DynamicImage);

/// Where the pixels of an image come from.
pub enum Pixels {
    /// Decoded from `bytes`, read as `format`, or as the format the content
    /// shows when there is none.
    Decoded { bytes: Seq<u8>, format: Option<InputFormat> },
    /// `source` resized to `width` by `height` with the triangle filter.
    Resized { source: Box<Pixels>, width: u32, height: u32 },
}

/// The abstract value of a `Picture`.
pub struct PictureView {
    pub width: u32,
    pub height: u32,
    /// The colour type carries an alpha channel.
    pub alpha: bool,
    pub source: Pixels,
}

/// A decoded or resized image, with its width, height, whether its colour
/// type carries alpha, and where its pixels come from. Only the decoding and
/// resizing functions of this module make one, and they fill these from the
/// image they hold.
pub struct Picture {
    image: DynamicImage,
    width: u32,
    height: u32,
    alpha: bool,
    source: Ghost<Pixels>,
}

impl View for Picture {
    type V = PictureView;

    closed spec fn view(&self) -> PictureView {
        PictureView { width: self.width, height: self.height, alpha: self.alpha, source: self.source@ }
    }
}

impl Picture {
    pub fn width(&self) -> (res: u32)
        ensures
            res == self@.width,
    {
        self.width
    }

    pub fn height(&self) -> (res: u32)
        ensures
            res == self@.height,
    {
        self.height
    }

    pub fn has_alpha(&self) -> (res: bool)
        ensures
            res == self@.alpha,
    {
        self.alpha
    }
}

/// The width, height and alpha of the image that `image` decodes from
/// `bytes` read as `format` (or as the format the content shows), when
/// decoding succeeds.
pub uninterp spec fn decoded_info(bytes: Seq<u8>, format: Option<InputFormat>) -> (u32, u32, bool);

/// Decoding `bytes` as `format` can fail: one run of the decoder did. This
/// relates a failure to the bytes and format it was had on, and makes no
/// claim that every run fails.
pub uninterp spec fn decoding_can_fail(bytes: Seq<u8>, format: InputFormat) -> bool;

/// Decoding `bytes` as the format their content shows can fail: one run of
/// the decoder did.
pub uninterp spec fn content_decoding_can_fail(bytes: Seq<u8>) -> bool;

/// The pixels of an image as `DynamicImage::to_rgba8` lays them out. The
/// image is the one its `Pixels` describe: decoding and resampling compute
/// the same pixels on every machine (the resampler is plain arithmetic, and
/// zune-jpeg documents its SIMD inverse DCT as bit-identical to the scalar one).
pub uninterp spec fn rgba_of(pixels: Pixels) -> Seq<u8>;

/// The pixels of an image as `DynamicImage::to_rgb8` lays them out.
pub uninterp spec fn rgb_of(pixels: Pixels) -> Seq<u8>;

/// The image that successfully decoding `bytes` as `format` gives.
pub open spec fn decoded_view(bytes: Seq<u8>, format: Option<InputFormat>) -> PictureView {
    let info = decoded_info(bytes, format);
    PictureView { width: info.0, height: info.1, alpha: info.2, source: Pixels::Decoded { bytes, format } }
}

/// Decodes `bytes` as `format` with `image::ImageReader` (`set_format`,
/// `no_limits`, `decode`). A successful decoding gives the image that the
/// bytes and the format determine. Whether decoding succeeds also depends on
/// the machine (a failed allocation is reported as an error), so a failure
/// only says that decoding these bytes as this format can fail; errors are
/// returned as their display text.
#[verifier::external_body]
pub(crate) fn decode_as(bytes: &[u8], format: InputFormat) -> (res: Result<Picture, String>)
    ensures
        res matches Ok(p) ==> {
            &&& (p@.width, p@.height, p@.alpha) == decoded_info(bytes@, Some(format))
            &&& p@.source == (Pixels::Decoded { bytes: bytes@, format: Some(format) })
        },
        res is Err ==> decoding_can_fail(bytes@, format),
{
    let f = match format {
        Png => Fmt::Png, Jpeg => Fmt::Jpeg, Gif => Fmt::Gif, Bmp => Fmt::Bmp,
        Tiff => Fmt::Tiff, Ico => Fmt::Ico, Tga => Fmt::Tga, Pnm => Fmt::Pnm,
        Qoi => Fmt::Qoi, Hdr => Fmt::Hdr, Dds => Fmt::Dds, WebP => Fmt::WebP,
    };
    let mut reader = ImageReader::new(Cursor::new(bytes));
    reader.set_format(f);
    reader.no_limits();
    match reader.decode() {
        Ok(image) => Ok(Picture { width: image.width(), height: image.height(), alpha: image.has_alpha(),
            source: Ghost(Pixels::Decoded { bytes: bytes@, format: Some(format) }), image }),
        Err(e) => Err(e.to_string()),
    }
}

/// Decodes `bytes` with `image::ImageReader`, the format guessed from the
/// content (`with_guessed_format`, `no_limits`, `decode`). As with
/// `decode_as`, a failure only says that decoding these bytes this way can
/// fail.
#[verifier::external_body]
pub(crate) fn decode_by_content(bytes: &[u8]) -> (res: Result<Picture, String>)
    ensures
        res matches Ok(p) ==> {
            &&& (p@.width, p@.height, p@.alpha) == decoded_info(bytes@, None)
            &&& p@.source == (Pixels::Decoded { bytes: bytes@, format: None })
        },
        res is Err ==> content_decoding_can_fail(bytes@),
{
    let mut reader = match ImageReader::new(Cursor::new(bytes)).with_guessed_format() {
        Ok(reader) => reader,
        Err(e) => return Err(e.to_string()),
    };
    reader.no_limits();
    match reader.decode() {
        Ok(image) => Ok(Picture { width: image.width(), height: image.height(), alpha: image.has_alpha(),
            source: Ghost(Pixels::Decoded { bytes: bytes@, format: None }), image }),
        Err(e) => Err(e.to_string()),
    }
}

/// `DynamicImage::resize_exact` with the triangle filter: the result has
/// exactly the requested size, keeps the colour type of the source, and its
/// pixels are the source's resized.
#[verifier::external_body]
pub(crate) fn resize_exact(pic: &Picture, width: u32, height: u32) -> (res: Picture)
    ensures
        res@ == (PictureView {
            width,
            height,
            alpha: pic@.alpha,
            source: Pixels::Resized { source: Box::new(pic@.source), width, height },
        }),
{
    Picture { image: pic.image.resize_exact(width, height, FilterType::Triangle), width, height, alpha: pic.alpha,
        source: Ghost(Pixels::Resized { source: Box::new(pic.source@), width, height }) }
}

/// `DynamicImage::to_rgba8`, as its raw buffer: the image's RGBA pixels, at
/// least four bytes for each.
#[verifier::external_body]
pub(crate) fn rgba_pixels(pic: &Picture) -> (res: Vec<u8>)
    ensures
        res@ == rgba_of(pic@.source),
        res@.len() >= 4 * pic@.width * pic@.height,
{
    pic.image.to_rgba8().into_raw()
}

/// `DynamicImage::to_rgb8`, as its raw buffer: the image's RGB pixels, at
/// least three bytes for each.
#[verifier::external_body]
pub(crate) fn rgb_pixels(pic: &Picture) -> (res: Vec<u8>)
    ensures
        res@ == rgb_of(pic@.source),
        res@.len() >= 3 * pic@.width * pic@.height,
{
    pic.image.to_rgb8().into_raw()
}

} // verus!
