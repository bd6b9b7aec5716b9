use rustwatch::{
    missing_file, open_failure, validate_file_size, AppError, IoKind, LineRead, LineScanner,
    LogEntry, Timestamp, MAX_FILE_SIZE, TIMEOUT_NANOS, TIMEOUT_SECS,
};

fn scan_all(lines: &[&str], stamp: Option<Timestamp>) -> Vec<LogEntry> {
    let mut scanner = LineScanner::start("f.log".to_string(), 100, stamp).unwrap();
    for l in lines {
        let w = scanner.feed(LineRead::Text(l.to_string()), 0).unwrap();
        assert!(w.is_none());
    }
    scanner.finish().entries
}

#[test]
fn file_above_ceiling_fails_with_size_error() {
    match validate_file_size(MAX_FILE_SIZE + 1, "big.log") {
        Err(AppError::FileSizeError { path, limit }) => {
            assert_eq!(path, "big.log");
            assert_eq!(limit, "1 GiB");
        }
        other => panic!("unexpected {:?}", other),
    }
    assert!(validate_file_size(MAX_FILE_SIZE, "big.log").is_ok());
    assert!(validate_file_size(0, "big.log").is_ok());
    let started = LineScanner::start("big.log".to_string(), u64::MAX, None);
    assert!(matches!(started, Err(AppError::FileSizeError { .. })));
}

#[test]
fn large_file_is_flagged_but_scanned() {
    let s = LineScanner::start("l.log".to_string(), 100_000_001, None).unwrap();
    assert!(s.is_large());
    let s = LineScanner::start("l.log".to_string(), 100_000_000, None).unwrap();
    assert!(!s.is_large());
}

#[test]
fn error_lines_are_reported_at_their_positions() {
    let lines = ["ok", "ERROR: disk full", "fine", "an Error here", "error", "nothing"];
    let stamp = Some(Timestamp { secs: 1_700_000_000, nanos: 5 });
    let entries = scan_all(&lines, stamp);
    let numbers: Vec<usize> = entries.iter().map(|e| e.line_number).collect();
    assert_eq!(numbers, vec![2, 4, 5]);
    assert_eq!(entries[0].content, "ERROR: disk full");
    assert_eq!(entries[1].content, "an Error here");
    assert_eq!(entries[2].content, "error");
    assert!(entries.iter().all(|e| e.timestamp == stamp));
}

#[test]
fn scanning_twice_gives_the_same_lines() {
    let lines = ["a", "Error 1", "b", "ERROR 2"];
    let first = scan_all(&lines, None);
    let second = scan_all(&lines, None);
    assert_eq!(first.len(), second.len());
    for (x, y) in first.iter().zip(second.iter()) {
        assert_eq!(x.line_number, y.line_number);
        assert_eq!(x.content, y.content);
    }
}

#[test]
fn timeout_fails_the_file() {
    let mut s = LineScanner::start("slow.log".to_string(), 10, None).unwrap();
    assert!(s.feed(LineRead::Text("error one".to_string()), 1).is_ok());
    assert!(s.feed(LineRead::Text("error two".to_string()), TIMEOUT_NANOS).is_ok());
    match s.feed(LineRead::Text("error three".to_string()), TIMEOUT_NANOS + 1) {
        Err(AppError::TimeoutError { path, seconds }) => {
            assert_eq!(path, "slow.log");
            assert_eq!(seconds, TIMEOUT_SECS);
        }
        other => panic!("unexpected {:?}", other),
    }
}

#[test]
fn undecodable_lines_are_skipped_and_failures_warn() {
    let mut s = LineScanner::start("m.log".to_string(), 10, None).unwrap();
    assert!(s.feed(LineRead::Undecodable, 0).unwrap().is_none());
    let w = s.feed(LineRead::Failed("boom".to_string()), 0).unwrap().unwrap();
    assert_eq!(w.line_number, 2);
    assert_eq!(w.cause, "boom");
    assert!(s.feed(LineRead::Text("ERROR".to_string()), 0).unwrap().is_none());
    assert_eq!(s.lines_seen(), 3);
    let scan = s.finish();
    assert_eq!(scan.entries.len(), 1);
    assert_eq!(scan.entries[0].line_number, 3);
}

#[test]
fn open_failures_map_to_their_errors() {
    assert!(matches!(
        open_failure("p", IoKind::PermissionDenied, "x".to_string()),
        AppError::PermissionDenied(p) if p == "p"
    ));
    assert!(matches!(
        open_failure("p", IoKind::InvalidData, "x".to_string()),
        AppError::EncodingError(p) if p == "p"
    ));
    assert!(matches!(
        open_failure("p", IoKind::Other, "x".to_string()),
        AppError::FileProcessingError { path, error } if path == "p" && error == "x"
    ));
    assert!(matches!(
        missing_file("gone"),
        AppError::IoError { kind: IoKind::NotFound, detail } if detail == "gone"
    ));
}

#[test]
fn timestamp_text() {
    let none = LogEntry { line_number: 1, content: "error".to_string(), timestamp: None };
    assert_eq!(none.format_timestamp(), "Unknown time");
    let some = LogEntry {
        line_number: 1,
        content: "error".to_string(),
        timestamp: Some(Timestamp { secs: 0, nanos: 0 }),
    };
    let text = some.format_timestamp();
    assert_eq!(text.len(), 19);
    assert_eq!(&text[4..5], "-");
}
