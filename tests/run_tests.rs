use rustwatch::{
    aggregate, is_text_file, AppError, DirEntry, EntryKind, FileScan, IoKind, LineRead,
    LineScanner, ListFailure, ScanStats, WalkWarning, Walker, MAX_FILE_SIZE,
};

fn found(path: &str, kind: EntryKind) -> DirEntry {
    DirEntry::Found { path: path.to_string(), kind }
}

fn scan_lines(path: &str, size: u64, lines: &[&str]) -> Result<FileScan, AppError> {
    let mut s = LineScanner::start(path.to_string(), size, None)?;
    for l in lines {
        s.feed(LineRead::Text(l.to_string()), 0)?;
    }
    Ok(s.finish())
}

fn walk(walker: &mut Walker, listings: &mut Vec<(String, Result<Vec<DirEntry>, ListFailure>)>)
    -> Vec<WalkWarning> {
    let mut warnings = Vec::new();
    while let Some(dir) = walker.next_dir() {
        let pos = listings.iter().position(|(d, _)| *d == dir).unwrap();
        let (_, listing) = listings.remove(pos);
        warnings.extend(walker.visit(&dir, listing).unwrap());
    }
    warnings
}

#[test]
fn unreadable_subdirectory_is_one_warning() {
    let root_listing = vec![
        found("r/a.log", EntryKind::File { is_text: true }),
        found("r/locked", EntryKind::Dir),
        found("r/sub", EntryKind::Dir),
    ];
    let mut listings = vec![
        ("r".to_string(), Ok(root_listing)),
        (
            "r/locked".to_string(),
            Err(ListFailure { kind: IoKind::PermissionDenied, cause: "denied".to_string() }),
        ),
        ("r/sub".to_string(), Ok(vec![found("r/sub/b.txt", EntryKind::File { is_text: true })])),
    ];
    let mut walker = Walker::new("r".to_string());
    let warnings = walk(&mut walker, &mut listings);
    let mut files = walker.into_files();
    files.sort();
    assert_eq!(files, vec!["r/a.log".to_string(), "r/sub/b.txt".to_string()]);
    assert_eq!(warnings.len(), 1);
    assert!(matches!(&warnings[0], WalkWarning::DirDenied(p) if p == "r/locked"));

    let mut without = vec![
        (
            "r".to_string(),
            Ok(vec![
                found("r/a.log", EntryKind::File { is_text: true }),
                found("r/sub", EntryKind::Dir),
            ]),
        ),
        ("r/sub".to_string(), Ok(vec![found("r/sub/b.txt", EntryKind::File { is_text: true })])),
    ];
    let mut plain = Walker::new("r".to_string());
    assert!(walk(&mut plain, &mut without).is_empty());
    let mut plain_files = plain.into_files();
    plain_files.sort();
    assert_eq!(plain_files, files);
}

#[test]
fn unreadable_entries_and_other_failures_warn() {
    let mut walker = Walker::new("r".to_string());
    let dir = walker.next_dir().unwrap();
    let ws = walker
        .visit(
            &dir,
            Ok(vec![
                DirEntry::Unreadable { kind: IoKind::PermissionDenied, cause: "no".to_string() },
                DirEntry::Unreadable { kind: IoKind::Other, cause: "bad".to_string() },
                found("r/x.bin", EntryKind::File { is_text: false }),
                found("r/fifo", EntryKind::Other),
                found("r/d", EntryKind::Dir),
            ]),
        )
        .unwrap();
    assert_eq!(ws.len(), 2);
    assert!(matches!(&ws[0], WalkWarning::EntryDenied(d) if d == "r"));
    assert!(matches!(&ws[1], WalkWarning::EntryFailed { dir, kind: IoKind::Other, cause }
        if dir == "r" && cause == "bad"));
    let sub = walker.next_dir().unwrap();
    assert_eq!(sub, "r/d");
    let ws = walker
        .visit(&sub, Err(ListFailure { kind: IoKind::Other, cause: "io".to_string() }))
        .unwrap();
    assert!(matches!(&ws[0], WalkWarning::DirFailed { path, kind: IoKind::Other, cause }
        if path == "r/d" && cause == "io"));
    assert!(walker.next_dir().is_none());
    assert!(walker.into_files().is_empty());
}

#[test]
fn root_listing_failure_is_fatal() {
    let mut w = Walker::new("/root".to_string());
    let d = w.next_dir().unwrap();
    let r = w.visit(&d, Err(ListFailure { kind: IoKind::PermissionDenied, cause: "x".to_string() }));
    assert!(matches!(r, Err(AppError::PermissionDenied(p)) if p == "/root"));
    let mut w = Walker::new("/gone".to_string());
    let d = w.next_dir().unwrap();
    let r = w.visit(&d, Err(ListFailure { kind: IoKind::NotFound, cause: "missing".to_string() }));
    assert!(matches!(r, Err(AppError::IoError { kind: IoKind::NotFound, detail }) if detail == "missing"));
}

#[test]
fn end_to_end_one_error_line() {
    let binary: Vec<u8> = vec![0, 1, 2, 0, 255, 0, 7, 0];
    let a_text = is_text_file(Some("log"), None);
    let b_text = is_text_file(None, Some(&binary));
    let c_text = is_text_file(Some("txt"), Some(&[]));
    assert!(a_text);
    assert!(!b_text);
    assert!(c_text);
    let mut walker = Walker::new("root".to_string());
    let dir = walker.next_dir().unwrap();
    let ws = walker
        .visit(
            &dir,
            Ok(vec![
                found("root/a.log", EntryKind::File { is_text: a_text }),
                found("root/b.bin", EntryKind::File { is_text: b_text }),
                found("root/c.txt", EntryKind::File { is_text: c_text }),
            ]),
        )
        .unwrap();
    assert!(ws.is_empty());
    assert!(walker.next_dir().is_none());
    let files = walker.into_files();
    assert!(files.contains(&"root/a.log".to_string()));
    assert!(!files.contains(&"root/b.bin".to_string()));

    assert_eq!(files.len(), 2);
    let names: Vec<String> = vec!["a.log".to_string(), "c.txt".to_string()];
    let results =
        vec![scan_lines("root/a.log", 24, &["ok", "ERROR: disk full"]), scan_lines("root/c.txt", 0, &[])];
    let (report, stats) = aggregate(names, results).unwrap();
    assert_eq!(report.files.len(), 1);
    assert_eq!(report.files[0].name, "a.log");
    assert_eq!(report.files[0].lines.len(), 1);
    assert_eq!(report.files[0].lines[0].line_number, 2);
    assert_eq!(report.files[0].lines[0].content, "ERROR: disk full");
    assert_eq!(stats.total_files, 2);
    assert_eq!(stats.processed_files, 2);
    assert_eq!(stats.total_errors, 1);
    assert_eq!(stats.skipped_files, 0);
    assert!(report.failures.is_empty());
}

#[test]
fn empty_file_list_fails_the_run() {
    let r = aggregate(Vec::new(), Vec::new());
    assert!(matches!(r, Err(AppError::IoError { kind: IoKind::Other, .. })));
}

#[test]
fn every_file_failing_fails_the_run() {
    let r = aggregate(
        vec!["x".to_string()],
        vec![scan_lines("x", MAX_FILE_SIZE + 1, &["error"])],
    );
    assert!(r.is_err());
}

#[test]
fn oversized_file_is_skipped_and_others_reported() {
    let names = vec!["big.log".to_string(), "small.log".to_string()];
    let results = vec![
        scan_lines("big.log", MAX_FILE_SIZE + 1, &["error"]),
        scan_lines("small.log", 30, &["Error a", "ok", "error b"]),
    ];
    let (report, stats) = aggregate(names, results).unwrap();
    assert_eq!(report.files.len(), 1);
    assert_eq!(report.files[0].name, "small.log");
    assert_eq!(report.files[0].lines.len(), 2);
    assert_eq!(stats.skipped_files, 1);
    assert_eq!(stats.processed_files, 1);
    assert_eq!(stats.total_errors, 2);
    assert_eq!(report.failures.len(), 1);
    assert_eq!(report.failures[0].index, 0);
    assert!(matches!(report.failures[0].error, AppError::FileSizeError { .. }));
}

#[test]
fn timed_out_file_contributes_nothing() {
    let mut s = LineScanner::start("slow.log".to_string(), 50, None).unwrap();
    s.feed(LineRead::Text("error early".to_string()), 0).unwrap();
    let timed_out = s
        .feed(LineRead::Text("more".to_string()), u64::MAX)
        .map(|_| FileScan { entries: Vec::new(), large: false });
    assert!(matches!(timed_out, Err(AppError::TimeoutError { .. })));
    let names = vec!["slow.log".to_string(), "ok.log".to_string()];
    let results = vec![timed_out, scan_lines("ok.log", 5, &["clean"])];
    let (report, stats) = aggregate(names, results).unwrap();
    assert!(report.files.is_empty());
    assert_eq!(stats.skipped_files, 1);
    assert_eq!(stats.processed_files, 1);
    assert_eq!(stats.total_errors, 0);
}

#[test]
fn report_keeps_list_order_and_counts_large_files() {
    let names = vec!["a".to_string(), "b".to_string(), "c".to_string()];
    let results = vec![
        scan_lines("a", 200_000_000, &["error 1"]),
        scan_lines("b", 1, &["clean"]),
        scan_lines("c", 1, &["x", "ERROR"]),
    ];
    let (report, stats) = aggregate(names, results).unwrap();
    let order: Vec<&str> = report.files.iter().map(|f| f.name.as_str()).collect();
    assert_eq!(order, vec!["a", "c"]);
    assert_eq!(stats.large_files, 1);
    assert_eq!(stats.processed_files, 3);
    assert_eq!(stats.total_errors, 2);
}

#[test]
fn new_stats_are_zero() {
    let s = ScanStats::new();
    assert_eq!(s.total_files + s.processed_files + s.total_errors, 0);
    assert_eq!(s.skipped_files + s.large_files, 0);
}
