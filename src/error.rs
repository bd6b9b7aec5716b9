use vstd::prelude::*;

verus! {

/// The cause of a failed filesystem operation, as far as the scan cares.
#[derive(Clone, Copy, Debug, PartialEq, Eq, Structural)]
pub enum IoKind {
    NotFound,
    PermissionDenied,
    InvalidData,
    Other,
}

/// Every failure that the scan can report.
///
/// Values carry the offending path or the underlying cause as text; turning
/// them into a sentence for a terminal is the caller's business.
#[derive(Debug)]
pub enum AppError {
    /// A generic filesystem failure.
    IoError { kind: IoKind, detail: String },
    /// Access to the named path was refused.
    PermissionDenied(String),
    /// Malformed interactive input; the scan itself never produces it.
    InvalidInput(String),
    /// A file could not be processed for the given cause.
    FileProcessingError { path: String, error: String },
    /// The file is larger than the size ceiling, written out as `limit`.
    FileSizeError { path: String, limit: String },
    /// Scanning the file took longer than the budget of `seconds`.
    TimeoutError { path: String, seconds: u64 },
    /// The file's content could not be decoded when it was opened.
    EncodingError(String),
}

} // verus!
