use std::io::Cursor;

use image::{DynamicImage, ImageFormat, Rgba, RgbaImage};
use image_compresser::codec::{ConvertError, Encoded};
use image_compresser::conversion::{Action, Conversion, Event, Phase};
use image_compresser::convert::{ConvConfig, FailReason, FileResult, Status};

fn cfg(overwrite: bool) -> ConvConfig {
    ConvConfig { resize: false, width: 512, quality: 80, overwrite }
}

fn png_bytes(w: u32, h: u32) -> Vec<u8> {
    let img = RgbaImage::from_pixel(w, h, Rgba([1, 2, 3, 255]));
    let mut buf = Vec::new();
    DynamicImage::ImageRgba8(img)
        .write_to(&mut Cursor::new(&mut buf), ImageFormat::Png)
        .unwrap();
    buf
}

fn finished(a: Action) -> FileResult {
    match a {
        Action::Finish(r) => r,
        other => panic!("expected Finish, got {:?}", other),
    }
}

#[test]
fn existing_target_is_skipped() {
    let (mut c, a) = Conversion::start(cfg(false), Some("png"));
    assert!(matches!(a, Action::CheckTarget));
    let r = finished(c.step(Event::TargetExists(true)));
    assert_eq!(r.status, Status::Exists);
    assert_eq!(r.fail_reason, None);
    assert!(r.err.is_none());
    assert_eq!(c.phase, Phase::Finished);
}

#[test]
fn overwrite_goes_straight_to_the_source() {
    let (_, a) = Conversion::start(cfg(true), Some("png"));
    assert!(matches!(a, Action::ReadMetadata));
}

#[test]
fn full_run_converts() {
    let (mut c, a) = Conversion::start(cfg(false), Some("PNG"));
    assert!(matches!(a, Action::CheckTarget));
    assert!(matches!(c.step(Event::TargetExists(false)), Action::ReadMetadata));
    let bytes = png_bytes(10, 10);
    let size = bytes.len() as u64;
    assert!(matches!(c.step(Event::Metadata(size)), Action::ReadSource));
    let written = match c.step(Event::Source(bytes)) {
        Action::Write(data) => data,
        other => panic!("expected Write, got {:?}", other),
    };
    assert!(!written.is_empty());
    let r = finished(c.step(Event::Written));
    assert_eq!(r.status, Status::Done);
    assert_eq!((r.width, r.height), (10, 10));
    assert_eq!(r.in_bytes, size);
    assert_eq!(r.out_bytes, written.len() as u64);
}

#[test]
fn metadata_failure_is_a_read_failure() {
    let (mut c, _) = Conversion::start(cfg(true), Some("png"));
    let r = finished(c.step(Event::MetadataFailed("No such file".to_string())));
    assert_eq!(r.status, Status::Failed);
    assert_eq!(r.fail_reason, Some(FailReason::Read));
    assert_eq!(r.err.as_deref(), Some("读取文件失败: No such file"));
    assert_eq!((r.width, r.height, r.in_bytes, r.out_bytes), (0, 0, 0, 0));
}

#[test]
fn unsupported_extension_is_a_decode_failure() {
    let (mut c, _) = Conversion::start(cfg(true), Some("txt"));
    let r = finished(c.step(Event::Metadata(5)));
    assert_eq!(r.fail_reason, Some(FailReason::Decode));
    assert_eq!(r.err.as_deref(), Some("不支持的扩展名"));
    let (mut c, _) = Conversion::start(cfg(true), None);
    let r = finished(c.step(Event::Metadata(5)));
    assert_eq!(r.err.as_deref(), Some("不支持的扩展名"));
}

#[test]
fn unreadable_source_is_a_read_failure() {
    let (mut c, _) = Conversion::start(cfg(true), Some("png"));
    c.step(Event::Metadata(5));
    let r = finished(c.step(Event::SourceFailed("denied".to_string())));
    assert_eq!(r.status, Status::Failed);
    assert_eq!(r.fail_reason, Some(FailReason::Read));
    assert_eq!(r.err.as_deref(), Some("读取文件失败: denied"));
}

#[test]
fn corrupt_source_is_a_decode_failure() {
    let (mut c, _) = Conversion::start(cfg(true), Some("png"));
    c.step(Event::Metadata(31));
    let r = finished(c.step(Event::Source(b"this is definitely not an image".to_vec())));
    assert_eq!(r.status, Status::Failed);
    assert_eq!(r.fail_reason, Some(FailReason::Decode));
    assert!(r.err.unwrap().starts_with("解码错误: "));
}

#[test]
fn oversized_image_is_an_encode_failure() {
    let img = RgbaImage::from_pixel(16384, 1, Rgba([1, 2, 3, 255]));
    let mut buf = Vec::new();
    DynamicImage::ImageRgba8(img)
        .write_to(&mut Cursor::new(&mut buf), ImageFormat::Png)
        .unwrap();
    let (mut c, _) = Conversion::start(cfg(true), Some("png"));
    c.step(Event::Metadata(buf.len() as u64));
    let r = finished(c.step(Event::Source(buf)));
    assert_eq!(r.fail_reason, Some(FailReason::Encode));
    assert_eq!(r.err.as_deref(), Some("WebP 编码失败"));
}

#[test]
fn write_failure_names_the_target() {
    let (mut c, _) = Conversion::start(cfg(true), Some("png"));
    c.step(Event::Metadata(1));
    assert!(matches!(c.step(Event::Source(png_bytes(3, 3))), Action::Write(_)));
    let r = finished(c.step(Event::WriteFailed("out/a.png.webp".to_string(), "disk full".to_string())));
    assert_eq!(r.fail_reason, Some(FailReason::Write));
    assert_eq!(r.err.as_deref(), Some("写入 out/a.png.webp 失败: disk full"));
    assert_eq!(r.out_bytes, 0);
}

#[test]
fn transcode_outcomes_map_to_actions() {
    let (mut c, _) = Conversion::start(cfg(true), Some("png"));
    c.step(Event::Metadata(9));
    let a = c.on_transcoded(Ok(Encoded { bytes: vec![1, 2, 3], width: 4, height: 5 }));
    assert!(matches!(a, Action::Write(ref d) if d == &vec![1, 2, 3]));
    assert_eq!((c.width, c.height, c.out_bytes, c.in_bytes), (4, 5, 3, 9));
    assert_eq!(c.phase, Phase::Writing);
    let r = finished(c.step(Event::Written));
    assert_eq!((r.status, r.width, r.height, r.in_bytes, r.out_bytes), (Status::Done, 4, 5, 9, 3));

    let (mut c, _) = Conversion::start(cfg(true), Some("png"));
    c.step(Event::Metadata(9));
    let r = finished(c.on_transcoded(Err(ConvertError::Decode("boom".to_string()))));
    assert_eq!(r.err.as_deref(), Some("解码错误: boom"));

    let (mut c, _) = Conversion::start(cfg(true), Some("png"));
    c.step(Event::Metadata(9));
    let r = finished(c.on_transcoded(Err(ConvertError::Encode)));
    assert_eq!(r.fail_reason, Some(FailReason::Encode));
    assert_eq!(r.err.as_deref(), Some("WebP 编码失败"));
}
