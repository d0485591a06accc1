use image_compresser::convert::{empty, fail, FailReason, FileResult, Status};
use image_compresser::events::{
    decimal, done_event, file_event, json_escape, planned_event, scan_event, skipped_total,
    unsupported_event,
};
use image_compresser::scan::ScanCounts;
use image_compresser::summary::Tally;

#[test]
fn decimal_text() {
    assert_eq!(decimal(0), "0");
    assert_eq!(decimal(7), "7");
    assert_eq!(decimal(10), "10");
    assert_eq!(decimal(9888), "9888");
    assert_eq!(decimal(u64::MAX), "18446744073709551615");
}

#[test]
fn escaping() {
    assert_eq!(json_escape("sub/a.png"), "sub/a.png");
    assert_eq!(json_escape("a\"b\\c"), "a\\\"b\\\\c");
    assert_eq!(json_escape("l1\nl2\tx\r"), "l1\\nl2\\tx\\r");
    assert_eq!(json_escape("\u{8}\u{c}\u{1}\u{1f}"), "\\b\\f\\u0001\\u001f");
    assert_eq!(json_escape("图片/照片.png"), "图片/照片.png");
    assert_eq!(json_escape(""), "");
}

#[test]
fn scan_and_done_lines() {
    assert_eq!(scan_event(9888), "{\"event\":\"scan\",\"total\":9888}");
    assert_eq!(
        done_event(9800, 50, 38),
        "{\"event\":\"done\",\"success\":9800,\"skipped\":50,\"failed\":38}"
    );
}

#[test]
fn file_lines() {
    let ok = FileResult {
        status: Status::Done,
        fail_reason: None,
        err: None,
        width: 3648,
        height: 5472,
        in_bytes: 1,
        out_bytes: 1,
    };
    assert_eq!(
        file_event("sub/a.png", &ok),
        "{\"event\":\"file\",\"ok\":true,\"rel\":\"sub/a.png\",\"width\":3648,\"height\":5472}"
    );
    assert_eq!(
        file_event("sub/a.png", &fail(FailReason::Decode, "x".to_string())),
        "{\"event\":\"file\",\"ok\":false,\"rel\":\"sub/a.png\",\"reason\":\"decode\"}"
    );
    assert_eq!(
        file_event("sub/a.png", &empty(Status::Exists)),
        "{\"event\":\"file\",\"ok\":false,\"rel\":\"sub/a.png\",\"reason\":\"exists\"}"
    );
    assert_eq!(
        file_event("a.png", &fail(FailReason::Write, "x".to_string())),
        "{\"event\":\"file\",\"ok\":false,\"rel\":\"a.png\",\"reason\":\"write\"}"
    );
    assert_eq!(
        unsupported_event("readme.txt"),
        "{\"event\":\"file\",\"ok\":false,\"rel\":\"readme.txt\",\"reason\":\"unsupported\"}"
    );
    assert_eq!(planned_event("q\"x.png"), "{\"event\":\"file\",\"ok\":true,\"rel\":\"q\\\"x.png\"}");
}

#[test]
fn skipped_adds_kept_targets_and_unsupported_files() {
    let t = Tally { done: 1, skipped_exists: 4, failed: 0, in_bytes: 0, out_bytes: 0 };
    let c = ScanCounts { total_files: 6, supported: 5, skipped_ext: 1, walk_errors: 0 };
    assert_eq!(skipped_total(&t, &c), Some(5));
    let t = Tally { done: 0, skipped_exists: u64::MAX, failed: 0, in_bytes: 0, out_bytes: 0 };
    assert_eq!(skipped_total(&t, &c), None);
}
