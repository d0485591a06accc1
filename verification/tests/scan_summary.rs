use std::path::PathBuf;

use image_compresser::convert::{empty, fail, ConvConfig, FailReason, FileResult, Status};
use image_compresser::scan::{scan, supported_ext_list, Entry, Scan, ScanCounts, Verdict};
use image_compresser::summary::{exit_code, output_exclusion, progress_due, tally, totals_fit, worker_count};

fn file(name: &str, ext: Option<&str>) -> Entry {
    Entry::File {
        src: PathBuf::from(name),
        out: PathBuf::from(format!("{name}.webp")),
        ext: ext.map(|e| e.to_string()),
    }
}

fn done(in_bytes: u64, out_bytes: u64) -> FileResult {
    FileResult {
        status: Status::Done,
        fail_reason: None,
        err: None,
        width: 1,
        height: 1,
        in_bytes,
        out_bytes,
    }
}

#[test]
fn ext_list_text() {
    assert_eq!(
        supported_ext_list(),
        "png, jpg, jpeg, gif, bmp, tif, tiff, ico, tga, pnm, pbm, pgm, ppm, pam, qoi, hdr, dds, webp"
    );
}

#[test]
fn scan_counts_and_jobs() {
    let mut scan = Scan::new();
    assert_eq!(scan.visit(Entry::NotAFile), Verdict::Ignored);
    assert_eq!(scan.visit(file("a.png", Some("png"))), Verdict::Queued);
    assert_eq!(scan.visit(file("b.JPG", Some("JPG"))), Verdict::Queued);
    assert_eq!(scan.visit(file("readme.txt", Some("txt"))), Verdict::Unsupported);
    assert_eq!(scan.visit(file("Makefile", None)), Verdict::Unsupported);
    assert_eq!(scan.visit(Entry::Unreadable), Verdict::Ignored);
    assert_eq!(scan.counts.total_files, 4);
    assert_eq!(scan.counts.supported, 2);
    assert_eq!(scan.counts.skipped_ext, 2);
    assert_eq!(scan.counts.walk_errors, 1);
    assert_eq!(scan.jobs.len(), 2);
    assert_eq!(scan.jobs[1].src, PathBuf::from("b.JPG"));
    assert_eq!(scan.jobs[1].out, PathBuf::from("b.JPG.webp"));
    assert_eq!(scan.skipped, vec![PathBuf::from("readme.txt"), PathBuf::from("Makefile")]);
    assert!(scan.room_left());
}

#[test]
fn default_counts_are_zero() {
    let c = ScanCounts::default();
    assert_eq!((c.total_files, c.supported, c.skipped_ext, c.walk_errors), (0, 0, 0, 0));
}

#[test]
fn tally_counts_each_result_once() {
    let results = vec![
        done(100, 40),
        empty(Status::Exists),
        fail(FailReason::Decode, "x".to_string()),
        done(50, 10),
    ];
    assert!(totals_fit(&results));
    let t = tally(&results);
    assert_eq!((t.done, t.skipped_exists, t.failed), (2, 1, 1));
    assert_eq!((t.in_bytes, t.out_bytes), (150, 50));
    assert_eq!(t.done + t.skipped_exists + t.failed, results.len() as u64);
    assert_eq!(exit_code(&t), 1);
    let t = tally(&vec![done(1, 1), empty(Status::Exists)]);
    assert_eq!(exit_code(&t), 0);
}

#[test]
fn totals_that_overflow_are_detected() {
    let results = vec![done(u64::MAX, 1), done(1, 1)];
    assert!(!totals_fit(&results));
    let results = vec![done(u64::MAX, 1), fail(FailReason::Read, String::new())];
    assert!(totals_fit(&results));
}

#[test]
fn workers_and_progress() {
    assert_eq!(worker_count(4, Some(16)), 4);
    assert_eq!(worker_count(0, Some(16)), 16);
    assert_eq!(worker_count(0, None), 1);
    assert!(progress_due(200, 100));
    assert!(!progress_due(150, 100));
    assert!(!progress_due(100, 0));
}

#[test]
fn config_is_plain_data() {
    let c = ConvConfig { resize: true, width: 512, quality: 80, overwrite: false };
    let d = c;
    assert_eq!((d.resize, d.width, d.quality, d.overwrite), (true, 512, 80, false));
}

#[test]
fn scan_of_a_walk() {
    let entries = vec![
        Entry::NotAFile,
        file("a.png", Some("png")),
        Entry::Unreadable,
        file("n.txt", Some("txt")),
        file("b.WEBP", Some("WEBP")),
    ];
    let s = scan(entries);
    assert_eq!(s.counts.total_files, 3);
    assert_eq!(s.counts.supported, 2);
    assert_eq!(s.counts.skipped_ext, 1);
    assert_eq!(s.counts.walk_errors, 1);
    assert_eq!(s.jobs[0].src, PathBuf::from("a.png"));
    assert_eq!(s.jobs[1].src, PathBuf::from("b.WEBP"));
    assert_eq!(s.skipped, vec![PathBuf::from("n.txt")]);
    let empty = scan(Vec::new());
    assert_eq!(empty.counts.total_files, 0);
}

#[test]
fn output_directory_rules() {
    assert_eq!(output_exclusion(true, true), Err("输入目录与输出目录不能相同".to_string()));
    assert_eq!(output_exclusion(true, false), Err("输入目录与输出目录不能相同".to_string()));
    assert_eq!(output_exclusion(false, true), Ok(true));
    assert_eq!(output_exclusion(false, false), Ok(false));
}
