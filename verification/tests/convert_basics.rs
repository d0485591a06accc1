use std::path::PathBuf;

use image_compresser::convert::{
    empty, fail, format_for_extension, image_format_of, FailReason, InputFormat, Status,
};
use image_compresser::events::skipped_total;
use image_compresser::scan::{out_name_for, scan, supported_ext_list, Entry};
use image_compresser::text::{ascii_lowercase, join_texts};
use image_compresser::summary::tally;

#[test]
fn reason_names() {
    assert_eq!(FailReason::Read.as_str(), "read");
    assert_eq!(FailReason::Decode.as_str(), "decode");
    assert_eq!(FailReason::Encode.as_str(), "encode");
    assert_eq!(FailReason::Write.as_str(), "write");
}

#[test]
fn format_table() {
    assert_eq!(image_format_of("png"), Some(InputFormat::Png));
    assert_eq!(image_format_of("jpg"), Some(InputFormat::Jpeg));
    assert_eq!(image_format_of("jpeg"), Some(InputFormat::Jpeg));
    assert_eq!(image_format_of("tif"), Some(InputFormat::Tiff));
    assert_eq!(image_format_of("pam"), Some(InputFormat::Pnm));
    assert_eq!(image_format_of("webp"), Some(InputFormat::WebP));
    assert_eq!(image_format_of("PNG"), None);
    assert_eq!(image_format_of("txt"), None);
    assert_eq!(image_format_of(""), None);
}

#[test]
fn extensions_in_any_case() {
    assert_eq!(format_for_extension(Some("PNG")), Some(InputFormat::Png));
    assert_eq!(format_for_extension(Some("JpEg")), Some(InputFormat::Jpeg));
    assert_eq!(format_for_extension(Some("Txt")), None);
    assert_eq!(format_for_extension(None), None);
}

#[test]
fn listed_extensions_are_exactly_the_accepted_ones() {
    let list = supported_ext_list();
    for ext in list.split(", ") {
        assert!(image_format_of(ext).is_some(), "{ext}");
    }
    assert_eq!(list.split(", ").count(), 18);
    let items: Vec<&str> = list.split(", ").collect();
    for i in 0..items.len() {
        for j in (i + 1)..items.len() {
            assert_ne!(items[i], items[j]);
        }
    }
    for ext in ["txt", "avif", "exr", "jpe", "svg"] {
        assert!(image_format_of(ext).is_none());
        assert!(!list.split(", ").any(|e| e == ext));
    }
}

#[test]
fn report_reconciles_with_scan() {
    let mut entries = Vec::new();
    for (name, ext) in [("a.png", "png"), ("b.gif", "gif"), ("c.txt", "txt"), ("d.bmp", "bmp")] {
        entries.push(Entry::File {
            src: PathBuf::from(name),
            out: PathBuf::from(format!("{name}.webp")),
            ext: Some(ext.to_string()),
        });
    }
    entries.push(Entry::NotAFile);
    let scan = scan(entries);
    let results = vec![
        empty(Status::Exists),
        fail(FailReason::Decode, "bad".to_string()),
        empty(Status::Exists),
    ];
    assert_eq!(results.len(), scan.jobs.len());
    let t = tally(&results);
    let skipped = skipped_total(&t, &scan.counts).unwrap();
    assert_eq!(t.done + skipped + t.failed, scan.counts.total_files as u64);
}

#[test]
fn output_names_and_relative_text() {
    assert_eq!(out_name_for("a/b/photo.png"), "a/b/photo.png.webp");
    assert_eq!(out_name_for("x.webp"), "x.webp.webp");
    let parts = vec!["sub".to_string(), "deep".to_string(), "c.gif".to_string()];
    assert_eq!(join_texts(&parts, "/"), "sub/deep/c.gif");
    assert_eq!(join_texts(&vec!["a.png".to_string()], "/"), "a.png");
    assert_eq!(join_texts(&Vec::new(), "/"), "");
}

#[test]
fn lowercase_ascii_only() {
    assert_eq!(ascii_lowercase("PnG"), "png");
    assert_eq!(ascii_lowercase("ÄBC-Z9"), "Äbc-z9");
    assert_eq!(ascii_lowercase(""), "");
}

#[test]
fn distinct_paths_get_distinct_output_names() {
    let names = ["x", "x.webp", "sub/x", "sub/x.webp", "a.png", "a.jpg"];
    for (i, a) in names.iter().enumerate() {
        for (j, b) in names.iter().enumerate() {
            assert_eq!(i == j, out_name_for(a) == out_name_for(b));
        }
        let out = out_name_for(a);
        assert_eq!(&out[..a.len()], *a);
        assert_eq!(&out[a.len()..], ".webp");
    }
}
