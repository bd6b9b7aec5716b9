//! Scans a directory tree for text files and reports the lines that mention
//! an error, with a per-file size ceiling and time budget.
//!
//! The library holds every decision of the scan: which files count as text,
//! how a directory walk reacts to each listing, which lines of a file are
//! reported, and how per-file outcomes fold into one report. Reading the
//! disk, timing, threads and printing are left to the caller, which hands
//! the library plain values.

mod classify;
mod error;
mod report;
mod scan;
mod text;
mod walk;

pub use classify::{
    bytes_look_textual, classifies_as_text, has_text_extension, high_count, is_listed_extension,
    is_text_extension, is_text_file, null_count, sample_looks_textual, sniff_window,
    text_extensions, SAMPLE_LEN,
};
pub use error::{AppError, IoKind};
pub use report::{
    aggregate, error_total, failed_count, failed_indices, is_reported, large_count,
    lemma_failed_file_not_reported, processed_count, reported_indices, FileErrors, FileFailure,
    ScanReport, ScanStats,
};
pub use scan::{
    binary_size_text, entries_model, entry_model, lemma_hits_are_exactly_error_lines,
    lemma_scan_repeatable, line_hits, missing_file, open_failure, same_read, validate_file_size,
    FileScan, LineRead, LineScanner, LineWarning, LogEntry, Timestamp, LARGE_FILE_SIZE,
    MAX_FILE_SIZE, TIMEOUT_NANOS, TIMEOUT_SECS,
};
pub use text::{
    contains_error_word, contains_seq, error_word, holds_error_word, is_error_line, is_error_text,
    lower_of, occurs_at,
};
pub use walk::{
    dir_warning, entry_warning, entry_warnings, lemma_unreadable_subdir_only_warns, subdirs,
    text_files, texts, warning_model, warnings_model, DirEntry, EntryKind, ListFailure,
    WalkWarning, Walker, WarningModel,
};
