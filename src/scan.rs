use vstd::prelude::*;
use crate::error::{AppError, IoKind};
use crate::text::{is_error_line, is_error_text};

verus! {

/// Files above this many bytes are not scanned (1 GiB).
pub const MAX_FILE_SIZE: u64 = 1073741824;

/// Files above this many bytes are scanned but counted as large.
pub const LARGE_FILE_SIZE: u64 = 100000000;

/// The time budget of one file's scan, in seconds.
pub const TIMEOUT_SECS: u64 = 30;

/// The time budget of one file's scan, in nanoseconds.
pub const TIMEOUT_NANOS: u64 = 30000000000;

/// What `humansize::format_size` writes for a byte count in binary units.
pub uninterp spec fn binary_size_text(n: u64) -> Seq<char>;

/// Relies on `humansize::format_size` with the `BINARY` options: a byte count
/// written for people, which depends on the count alone.
#[verifier::external_body]
fn format_binary_size(n: u64) -> (r: String)
    ensures
        r@ == binary_size_text(n),
{
    humansize::format_size(n, humansize::BINARY)
}

/// A point in time: whole seconds since the Unix epoch and the nanoseconds
/// past them.
#[derive(Clone, Copy, Debug, PartialEq, Eq, Structural)]
pub struct Timestamp {
    pub secs: i64,
    pub nanos: u32,
}

/// One error line of a file: its 1-based position, its text, and the file's
/// last-modified time as it stood when the scan began.
#[derive(Debug)]
pub struct LogEntry {
    pub line_number: usize,
    pub content: String,
    pub timestamp: Option<Timestamp>,
}

/// Relies on chrono's `TimeZone::timestamp_opt` for `Local`, `earliest` and
/// `DateTime::format`: the instant as local "YYYY-MM-DD HH:MM:SS", or `None`
/// where chrono cannot represent it. The text depends on the machine's time
/// zone, so nothing more is stated.
#[verifier::external_body]
fn local_time_text(secs: i64, nanos: u32) -> (r: Option<String>) {
    match chrono::TimeZone::timestamp_opt(&chrono::Local, secs, nanos).earliest() {
        Some(t) => Some(t.format("%Y-%m-%d %H:%M:%S").to_string()),
        None => None,
    }
}

impl LogEntry {
    /// The entry's time as local wall-clock text, or "Unknown time" when it
    /// has none or the time cannot be represented.
    pub fn format_timestamp(&self) -> (r: String)
        ensures
            self.timestamp is None ==> r@ == "Unknown time"@,
    {
        match self.timestamp {
            Some(t) => match local_time_text(t.secs, t.nanos) {
                Some(text) => text,
                None => "Unknown time".to_owned(),
            },
            None => "Unknown time".to_owned(),
        }
    }
}

/// One line as the reader delivered it.
#[derive(Debug)]
pub enum LineRead {
    /// A line of valid text, without its line terminator.
    Text(String),
    /// A line that could not be decoded as text.
    Undecodable,
    /// Any other read failure, with its cause.
    Failed(String),
}

/// A read failure on one line that the caller should show; the scan goes on.
#[derive(Debug)]
pub struct LineWarning {
    pub line_number: usize,
    pub cause: String,
}

/// What a completed scan of one file produced.
#[derive(Debug)]
pub struct FileScan {
    /// The error lines, in file order.
    pub entries: Vec<LogEntry>,
    /// Whether the file was above the large-file threshold.
    pub large: bool,
}

/// The error lines among lines read so far, as (1-based position, text), in
/// file order.
pub open spec fn line_hits(reads: Seq<LineRead>) -> Seq<(int, Seq<char>)>
    decreases reads.len(),
{
    if reads.len() == 0 {
        seq![]
    } else {
        let prev = line_hits(reads.drop_last());
        match reads.last() {
            LineRead::Text(s) => if is_error_line(s@) {
                prev.push((reads.len() as int, s@))
            } else {
                prev
            },
            _ => prev,
        }
    }
}

/// An entry as a (position, text) pair.
pub open spec fn entry_model(e: LogEntry) -> (int, Seq<char>) {
    (e.line_number as int, e.content@)
}

/// The (position, text) pairs of a sequence of entries.
pub open spec fn entries_model(es: Seq<LogEntry>) -> Seq<(int, Seq<char>)> {
    es.map_values(|e: LogEntry| entry_model(e))
}

/// Whether two reads deliver the same thing.
pub open spec fn same_read(a: LineRead, b: LineRead) -> bool {
    match (a, b) {
        (LineRead::Text(x), LineRead::Text(y)) => x@ == y@,
        (LineRead::Undecodable, LineRead::Undecodable) => true,
        (LineRead::Failed(x), LineRead::Failed(y)) => x@ == y@,
        _ => false,
    }
}

/// For any lines read from a file, the reported error lines are exactly the
/// error lines of the file: each report names a 1-based position holding an
/// error line and carries its text, every error line is reported, and the
/// positions strictly ascend.
pub proof fn lemma_hits_are_exactly_error_lines(reads: Seq<LineRead>)
    ensures
        forall|j: int|
            0 <= j < line_hits(reads).len() ==> {
                let (n, text) = #[trigger] line_hits(reads)[j];
                &&& 1 <= n <= reads.len()
                &&& reads[n - 1] is Text
                &&& reads[n - 1]->Text_0@ == text
                &&& is_error_line(text)
            },
        forall|j: int, k: int|
            0 <= j < k < line_hits(reads).len() ==> (#[trigger] line_hits(reads)[j]).0
                < (#[trigger] line_hits(reads)[k]).0,
        forall|i: int|
            0 <= i < reads.len() && (#[trigger] reads[i]) is Text && is_error_line(
                reads[i]->Text_0@,
            ) ==> exists|j: int|
                0 <= j < line_hits(reads).len() && (#[trigger] line_hits(reads)[j]).0 == i + 1,
    decreases reads.len(),
{
    if reads.len() > 0 {
        let prev = reads.drop_last();
        lemma_hits_are_exactly_error_lines(prev);
        let hits = line_hits(reads);
        let ph = line_hits(prev);
        assert forall|j: int| 0 <= j < ph.len() implies (#[trigger] ph[j]).0 <= prev.len() by {}
        assert forall|i: int|
            0 <= i < reads.len() && (#[trigger] reads[i]) is Text && is_error_line(
                reads[i]->Text_0@,
            ) implies exists|j: int| 0 <= j < hits.len() && (#[trigger] hits[j]).0 == i + 1 by {
            if i < prev.len() {
                assert(prev[i] == reads[i]);
                let j = choose|j: int| 0 <= j < ph.len() && (#[trigger] ph[j]).0 == i + 1;
                assert(hits[j] == ph[j]);
            } else {
                assert(hits[ph.len() as int].0 == i + 1);
            }
        }
        assert forall|j: int| 0 <= j < ph.len() implies #[trigger] hits[j] == ph[j] by {}
        assert forall|j: int| 0 <= j < ph.len() implies (#[trigger] ph[j]).0 - 1 < prev.len()
            && reads[ph[j].0 - 1] == prev[ph[j].0 - 1] by {}
    }
}

/// Scanning is repeatable: two scans that read the same lines report the
/// same error lines, at the same positions.
pub proof fn lemma_scan_repeatable(a: Seq<LineRead>, b: Seq<LineRead>)
    requires
        a.len() == b.len(),
        forall|i: int| 0 <= i < a.len() ==> same_read(#[trigger] a[i], b[i]),
    ensures
        line_hits(a) == line_hits(b),
    decreases a.len(),
{
    if a.len() > 0 {
        assert(same_read(a[a.len() - 1], b[b.len() - 1]));
        lemma_scan_repeatable(a.drop_last(), b.drop_last());
    }
}

/// Checks a file's size against the ceiling: an error exactly when the file
/// is larger than `MAX_FILE_SIZE`.
pub fn validate_file_size(size: u64, path: &str) -> (r: Result<(), AppError>)
    ensures
        r is Ok <==> size <= MAX_FILE_SIZE,
        r is Err ==> (r->Err_0 matches AppError::FileSizeError { path: p, limit }
            && p@ == path@ && limit@ == binary_size_text(MAX_FILE_SIZE)),
{
    if size > MAX_FILE_SIZE {
        let limit = format_binary_size(MAX_FILE_SIZE);
        return Err(AppError::FileSizeError { path: path.to_owned(), limit });
    }
    Ok(())
}

/// The error for a file that does not exist when its scan starts.
pub fn missing_file(path: &str) -> (r: AppError)
    ensures
        r matches AppError::IoError { kind, detail } && kind == IoKind::NotFound && detail@ == path@,
{
    AppError::IoError { kind: IoKind::NotFound, detail: path.to_owned() }
}

/// The error for a file that could not be opened: a refused access, content
/// that cannot be decoded, or any other cause.
pub fn open_failure(path: &str, kind: IoKind, cause: String) -> (r: AppError)
    ensures
        kind == IoKind::PermissionDenied ==> (r matches AppError::PermissionDenied(p) && p@ == path@),
        kind == IoKind::InvalidData ==> (r matches AppError::EncodingError(p) && p@ == path@),
        kind != IoKind::PermissionDenied && kind != IoKind::InvalidData ==> (
        r matches AppError::FileProcessingError { path: p, error } && p@ == path@ && error@
            == cause@),
{
    match kind {
        IoKind::PermissionDenied => AppError::PermissionDenied(path.to_owned()),
        IoKind::InvalidData => AppError::EncodingError(path.to_owned()),
        _ => AppError::FileProcessingError { path: path.to_owned(), error: cause },
    }
}

/// The scan of one file, fed one line at a time.
pub struct LineScanner {
    path: String,
    timestamp: Option<Timestamp>,
    large: bool,
    lines_seen: usize,
    entries: Vec<LogEntry>,
    reads: Ghost<Seq<LineRead>>,
}

impl LineScanner {
    /// The lines fed so far.
    pub closed spec fn reads(&self) -> Seq<LineRead> {
        self.reads@
    }

    /// The file's path.
    pub closed spec fn path(&self) -> Seq<char> {
        self.path@
    }

    /// The time attached to every error line of this file.
    pub closed spec fn stamp(&self) -> Option<Timestamp> {
        self.timestamp
    }

    /// Whether the file is above the large-file threshold.
    pub closed spec fn is_large_spec(&self) -> bool {
        self.large
    }

    /// The scanner's internal consistency.
    pub closed spec fn wf(&self) -> bool {
        &&& self.lines_seen == self.reads@.len()
        &&& entries_model(self.entries@) == line_hits(self.reads@)
        &&& forall|k: int| 0 <= k < self.entries@.len() ==> #[trigger] self.entries@[k].timestamp
            == self.timestamp
    }

    /// Starts the scan of a file of `size` bytes last modified at `modified`.
    /// Fails with the size error when the file is above the ceiling, before
    /// any line is read.
    pub fn start(path: String, size: u64, modified: Option<Timestamp>) -> (r: Result<
        LineScanner,
        AppError,
    >)
        ensures
            r is Ok <==> size <= MAX_FILE_SIZE,
            r is Err ==> (r->Err_0 matches AppError::FileSizeError { path: p, limit }
                && p@ == path@ && limit@ == binary_size_text(MAX_FILE_SIZE)),
            r is Ok ==> {
                let s = r->Ok_0;
                &&& s.wf()
                &&& s.reads() == Seq::<LineRead>::empty()
                &&& s.path() == path@
                &&& s.stamp() == modified
                &&& s.is_large_spec() == (size > LARGE_FILE_SIZE)
            },
    {
        match validate_file_size(size, path.as_str()) {
            Err(e) => Err(e),
            Ok(()) => {
                let entries: Vec<LogEntry> = Vec::new();
                let s = LineScanner {
                    path,
                    timestamp: modified,
                    large: size > LARGE_FILE_SIZE,
                    lines_seen: 0,
                    entries,
                    reads: Ghost(Seq::empty()),
                };
                assert(entries_model(s.entries@) =~= line_hits(s.reads@));
                Ok(s)
            },
        }
    }

    /// Whether the file is above the large-file threshold.
    pub fn is_large(&self) -> (r: bool)
        ensures
            r == self.is_large_spec(),
    {
        self.large
    }

    /// How many lines were fed so far.
    pub fn lines_seen(&self) -> (r: usize)
        requires
            self.wf(),
        ensures
            r == self.reads().len(),
    {
        self.lines_seen
    }

    /// Takes the next line, read when `elapsed_nanos` had passed since the
    /// scan began. Past the time budget the scan fails with the timeout error
    /// and the line is not taken; the caller then drops the scanner and with
    /// it every error line found so far. Otherwise the line is taken, and a
    /// read failure other than undecodable text comes back as a warning.
    pub fn feed(&mut self, line: LineRead, elapsed_nanos: u64) -> (r: Result<
        Option<LineWarning>,
        AppError,
    >)
        requires
            old(self).wf(),
            old(self).reads().len() < usize::MAX,
        ensures
            final(self).wf(),
            final(self).path() == old(self).path(),
            final(self).stamp() == old(self).stamp(),
            final(self).is_large_spec() == old(self).is_large_spec(),
            r is Err <==> elapsed_nanos > TIMEOUT_NANOS,
            r is Err ==> (r->Err_0 matches AppError::TimeoutError { path, seconds }
                && path@ == old(self).path() && seconds == TIMEOUT_SECS),
            r is Err ==> final(self).reads() == old(self).reads(),
            r is Ok ==> final(self).reads() == old(self).reads().push(line),
            r is Ok ==> (r->Ok_0 is Some <==> line is Failed),
            r is Ok && line is Failed ==> ({
                let w = r->Ok_0->Some_0;
                &&& w.line_number == old(self).reads().len() + 1
                &&& w.cause@ == line->Failed_0@
            }),
    {
        if elapsed_nanos > TIMEOUT_NANOS {
            return Err(
                AppError::TimeoutError { path: self.path.clone(), seconds: TIMEOUT_SECS },
            );
        }
        let ghost before = self.reads@;
        let ghost taken = line;
        let number: usize = self.lines_seen + 1;
        self.lines_seen = number;
        self.reads = Ghost(before.push(taken));
        assert(self.reads@.drop_last() =~= before);
        match line {
            LineRead::Text(s) => {
                if is_error_text(s.as_str()) {
                    let entry = LogEntry { line_number: number, content: s, timestamp: self.timestamp };
                    let ghost old_entries = self.entries@;
                    self.entries.push(entry);
                    assert(entries_model(self.entries@) =~= entries_model(old_entries).push(
                        entry_model(entry),
                    ));
                } else {
                }
                Ok(None)
            },
            LineRead::Undecodable => Ok(None),
            LineRead::Failed(cause) => Ok(Some(LineWarning { line_number: number, cause })),
        }
    }

    /// Ends a scan that did not time out, handing out its error lines in
    /// file order, each stamped with the file's time.
    pub fn finish(self) -> (r: FileScan)
        requires
            self.wf(),
        ensures
            entries_model(r.entries@) == line_hits(self.reads()),
            forall|k: int| 0 <= k < r.entries@.len() ==> #[trigger] r.entries@[k].timestamp
                == self.stamp(),
            r.large == self.is_large_spec(),
    {
        FileScan { entries: self.entries, large: self.large }
    }
}

} // verus!
