use std::io::Cursor;

use image::codecs::gif::GifEncoder;
use image::{DynamicImage, Frame, GrayImage, ImageFormat, Luma, Rgb, RgbImage, Rgba, RgbaImage};
use image_compresser::codec::{
    apply_resize, convert_picture, decode, decode_bytes, encode_webp, fall_back_to_content,
    non_empty_output, target_size, transcode, ConvertError,
};
use image_compresser::convert::{ConvConfig, InputFormat};

fn png_bytes(w: u32, h: u32) -> Vec<u8> {
    let img = RgbaImage::from_pixel(w, h, Rgba([200, 50, 50, 255]));
    let mut buf = Vec::new();
    DynamicImage::ImageRgba8(img)
        .write_to(&mut Cursor::new(&mut buf), ImageFormat::Png)
        .unwrap();
    buf
}

fn jpeg_bytes(w: u32, h: u32) -> Vec<u8> {
    let img = RgbImage::from_pixel(w, h, Rgb([40, 60, 80]));
    let mut buf = Vec::new();
    DynamicImage::ImageRgb8(img)
        .write_to(&mut Cursor::new(&mut buf), ImageFormat::Jpeg)
        .unwrap();
    buf
}

fn gif_bytes(w: u32, h: u32) -> Vec<u8> {
    let f1 = RgbaImage::from_pixel(w, h, Rgba([255, 0, 0, 255]));
    let f2 = RgbaImage::from_pixel(w, h, Rgba([0, 0, 255, 255]));
    let mut buf = Vec::new();
    {
        let mut enc = GifEncoder::new(&mut buf);
        enc.encode_frames(vec![Frame::new(f1), Frame::new(f2)]).unwrap();
    }
    buf
}

fn webp_dims(data: &[u8]) -> (u32, u32) {
    let img = image::load_from_memory(data).unwrap();
    (img.width(), img.height())
}

fn cfg(resize: bool, width: u32) -> ConvConfig {
    ConvConfig { resize, width, quality: 80, overwrite: false }
}

#[test]
fn target_size_values() {
    assert_eq!(target_size(&cfg(true, 512), 2000, 1000), (512, 256));
    assert_eq!(target_size(&cfg(true, 512), 100, 100), (100, 100));
    assert_eq!(target_size(&cfg(true, 512), 512, 300), (512, 300));
    assert_eq!(target_size(&cfg(false, 512), 2000, 1000), (2000, 1000));
    assert_eq!(target_size(&cfg(true, 512), 513, 1), (512, 1));
    assert_eq!(target_size(&cfg(true, 100), 3000, 10), (100, 1));
    assert_eq!(target_size(&cfg(true, 100), 1000, 0), (100, 1));
    assert_eq!(target_size(&cfg(true, 300), 1000, 999), (300, 299));
    assert_eq!(target_size(&cfg(true, 1), u32::MAX, u32::MAX), (1, 1));
}

#[test]
fn resize_twice_changes_nothing() {
    let c = cfg(true, 512);
    let first = target_size(&c, 2000, 1000);
    assert_eq!(target_size(&c, first.0, first.1), first);
}

#[test]
fn decode_by_declared_format() {
    let bytes = png_bytes(10, 7);
    let pic = decode_bytes(&bytes, Some(InputFormat::Png)).unwrap();
    assert_eq!((pic.width(), pic.height(), pic.has_alpha()), (10, 7, true));
    let jpg = jpeg_bytes(12, 9);
    let pic = decode_bytes(&jpg, Some(InputFormat::Jpeg)).unwrap();
    assert_eq!((pic.width(), pic.height(), pic.has_alpha()), (12, 9, false));
}

#[test]
fn decode_declared_format_mismatch_fails() {
    let jpg = jpeg_bytes(12, 9);
    assert!(decode_bytes(&jpg, Some(InputFormat::Png)).is_err());
}

#[test]
fn decode_by_content() {
    let jpg = jpeg_bytes(12, 9);
    let pic = decode_bytes(&jpg, None).unwrap();
    assert_eq!((pic.width(), pic.height()), (12, 9));
    assert!(decode_bytes(b"this is definitely not an image", None).is_err());
}

#[test]
fn mislabeled_file_falls_back_to_content() {
    let jpg = jpeg_bytes(12, 9);
    let pic = decode(&jpg, InputFormat::Png).unwrap();
    assert_eq!((pic.width(), pic.height()), (12, 9));
}

#[test]
fn corrupt_bytes_fail_to_decode() {
    let res = decode(b"this is definitely not an image", InputFormat::Png);
    assert!(res.is_err());
    let msg = res.err().unwrap();
    assert!(!msg.is_empty());
}

#[test]
fn apply_resize_shrinks_only_wide_images() {
    let wide = decode(&png_bytes(2000, 1000), InputFormat::Png).unwrap();
    let out = apply_resize(wide, &cfg(true, 512));
    assert_eq!((out.width(), out.height(), out.has_alpha()), (512, 256, true));
    let small = decode(&png_bytes(100, 100), InputFormat::Png).unwrap();
    let out = apply_resize(small, &cfg(true, 512));
    assert_eq!((out.width(), out.height()), (100, 100));
    let wide = decode(&png_bytes(2000, 1000), InputFormat::Png).unwrap();
    let out = apply_resize(wide, &cfg(false, 512));
    assert_eq!((out.width(), out.height()), (2000, 1000));
}

#[test]
fn encode_webp_with_and_without_alpha() {
    let pic = decode(&png_bytes(10, 10), InputFormat::Png).unwrap();
    let data = encode_webp(&pic, 80).unwrap();
    assert!(!data.is_empty());
    assert_eq!(webp_dims(&data), (10, 10));
    let pic = decode(&jpeg_bytes(12, 9), InputFormat::Jpeg).unwrap();
    let data = encode_webp(&pic, 80).unwrap();
    assert_eq!(webp_dims(&data), (12, 9));
}

#[test]
fn encode_webp_rejects_oversized_images() {
    let img = GrayImage::from_pixel(16384, 1, Luma([7]));
    let mut buf = Vec::new();
    DynamicImage::ImageLuma8(img)
        .write_to(&mut Cursor::new(&mut buf), ImageFormat::Png)
        .unwrap();
    let pic = decode(&buf, InputFormat::Png).unwrap();
    assert!(encode_webp(&pic, 80).is_none());
    let res = transcode(&buf, InputFormat::Png, &cfg(false, 512));
    assert!(matches!(res, Err(ConvertError::Encode)));
    let res = transcode(&buf, InputFormat::Png, &cfg(true, 512)).ok().unwrap();
    assert_eq!((res.width, res.height), (512, 1));
}

#[test]
fn transcode_resizes_wide_images() {
    let res = transcode(&png_bytes(2000, 1000), InputFormat::Png, &cfg(true, 512)).ok().unwrap();
    assert_eq!((res.width, res.height), (512, 256));
    assert_eq!(webp_dims(&res.bytes), (512, 256));
    let res = transcode(&png_bytes(2000, 1000), InputFormat::Png, &cfg(false, 512)).ok().unwrap();
    assert_eq!(webp_dims(&res.bytes), (2000, 1000));
}

#[test]
fn transcode_gif_keeps_first_frame_size() {
    let res = transcode(&gif_bytes(20, 10), InputFormat::Gif, &cfg(false, 512)).ok().unwrap();
    assert_eq!(webp_dims(&res.bytes), (20, 10));
}

#[test]
fn transcode_reports_decode_errors() {
    let res = transcode(b"this is definitely not an image", InputFormat::Png, &cfg(false, 512));
    assert!(matches!(res, Err(ConvertError::Decode(_))));
}

#[test]
fn transcode_webp_input() {
    let first = transcode(&png_bytes(5, 5), InputFormat::Png, &cfg(false, 512)).ok().unwrap();
    let again = transcode(&first.bytes, InputFormat::WebP, &cfg(false, 512)).ok().unwrap();
    assert_eq!(webp_dims(&again.bytes), (5, 5));
}

#[test]
fn fallback_keeps_a_successful_first_attempt() {
    let png = png_bytes(4, 3);
    let first = decode_bytes(&png, Some(InputFormat::Png));
    let pic = fall_back_to_content(&jpeg_bytes(12, 9), first).unwrap();
    assert_eq!((pic.width(), pic.height()), (4, 3));
    let pic = fall_back_to_content(&jpeg_bytes(12, 9), Err("no".to_string())).unwrap();
    assert_eq!((pic.width(), pic.height()), (12, 9));
    assert!(fall_back_to_content(b"junk", Err("no".to_string())).is_err());
}

#[test]
fn empty_encoder_output_counts_as_nothing() {
    assert_eq!(non_empty_output(Some(vec![1, 2])), Some(vec![1, 2]));
    assert_eq!(non_empty_output(Some(vec![])), None);
    assert_eq!(non_empty_output(None), None);
}

#[test]
fn convert_picture_resizes_then_encodes() {
    let pic = decode(&png_bytes(2000, 1000), InputFormat::Png).unwrap();
    let e = convert_picture(pic, &cfg(true, 512)).unwrap();
    assert_eq!((e.width, e.height), (512, 256));
    assert_eq!(webp_dims(&e.bytes), (512, 256));
    let img = GrayImage::from_pixel(16384, 1, Luma([7]));
    let mut buf = Vec::new();
    DynamicImage::ImageLuma8(img)
        .write_to(&mut Cursor::new(&mut buf), ImageFormat::Png)
        .unwrap();
    let pic = decode(&buf, InputFormat::Png).unwrap();
    assert!(convert_picture(pic, &cfg(false, 512)).is_none());
}

#[test]
fn encoded_file_shows_the_source_pixels() {
    let img = RgbImage::from_pixel(16, 16, Rgb([250, 10, 10]));
    let mut buf = Vec::new();
    DynamicImage::ImageRgb8(img)
        .write_to(&mut Cursor::new(&mut buf), ImageFormat::Png)
        .unwrap();
    let e = transcode(&buf, InputFormat::Png, &cfg(false, 512)).ok().unwrap();
    let back = image::load_from_memory(&e.bytes).unwrap().to_rgb8();
    let p = back.get_pixel(8, 8);
    assert!(p[0] > 200 && p[1] < 60 && p[2] < 60, "{:?}", p);
}
