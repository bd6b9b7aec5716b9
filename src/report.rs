use vstd::prelude::*;
use crate::error::{AppError, IoKind};
use crate::scan::{FileScan, LogEntry};

verus! {

/// The error lines of one file of the report.
#[derive(Debug)]
pub struct FileErrors {
    /// The file's name relative to the scan root.
    pub name: String,
    /// Its error lines, in file order; never empty.
    pub lines: Vec<LogEntry>,
}

/// A file whose scan failed, by its position in the scanned list.
#[derive(Debug)]
pub struct FileFailure {
    pub index: usize,
    pub error: AppError,
}

/// The files with error lines, in the order of the scanned list, and the
/// files whose scan failed, in the same order.
#[derive(Debug)]
pub struct ScanReport {
    pub files: Vec<FileErrors>,
    pub failures: Vec<FileFailure>,
}

/// Counters of one scan run.
#[derive(Clone, Copy, Debug, PartialEq, Eq, Structural)]
pub struct ScanStats {
    /// Candidate files handed to the run.
    pub total_files: usize,
    /// Files whose scan completed.
    pub processed_files: usize,
    /// Error lines over all completed files.
    pub total_errors: usize,
    /// Files whose scan failed.
    pub skipped_files: usize,
    /// Completed files above the large-file threshold.
    pub large_files: usize,
}

impl ScanStats {
    /// Counters that are all zero.
    pub fn new() -> (r: ScanStats)
        ensures
            r.total_files == 0 && r.processed_files == 0 && r.total_errors == 0
                && r.skipped_files == 0 && r.large_files == 0,
    {
        ScanStats {
            total_files: 0,
            processed_files: 0,
            total_errors: 0,
            skipped_files: 0,
            large_files: 0,
        }
    }
}

/// Whether a file's outcome puts it in the report: its scan completed with
/// at least one error line.
pub open spec fn is_reported(r: Result<FileScan, AppError>) -> bool {
    r is Ok && r->Ok_0.entries@.len() > 0
}

/// How many scans completed.
pub open spec fn processed_count(rs: Seq<Result<FileScan, AppError>>) -> nat
    decreases rs.len(),
{
    if rs.len() == 0 {
        0
    } else {
        processed_count(rs.drop_last()) + if rs.last() is Ok { 1nat } else { 0nat }
    }
}

/// How many scans failed.
pub open spec fn failed_count(rs: Seq<Result<FileScan, AppError>>) -> nat
    decreases rs.len(),
{
    if rs.len() == 0 {
        0
    } else {
        failed_count(rs.drop_last()) + if rs.last() is Err { 1nat } else { 0nat }
    }
}

/// How many completed scans were of large files.
pub open spec fn large_count(rs: Seq<Result<FileScan, AppError>>) -> nat
    decreases rs.len(),
{
    if rs.len() == 0 {
        0
    } else {
        large_count(rs.drop_last()) + if rs.last() is Ok && rs.last()->Ok_0.large {
            1nat
        } else {
            0nat
        }
    }
}

/// How many error lines the completed scans found.
pub open spec fn error_total(rs: Seq<Result<FileScan, AppError>>) -> nat
    decreases rs.len(),
{
    if rs.len() == 0 {
        0
    } else {
        error_total(rs.drop_last()) + if rs.last() is Ok {
            rs.last()->Ok_0.entries@.len()
        } else {
            0nat
        }
    }
}

/// The positions of the reported files, ascending.
pub open spec fn reported_indices(rs: Seq<Result<FileScan, AppError>>) -> Seq<int>
    decreases rs.len(),
{
    if rs.len() == 0 {
        seq![]
    } else {
        let prev = reported_indices(rs.drop_last());
        if is_reported(rs.last()) {
            prev.push(rs.len() - 1)
        } else {
            prev
        }
    }
}

/// The positions of the failed files, ascending.
pub open spec fn failed_indices(rs: Seq<Result<FileScan, AppError>>) -> Seq<int>
    decreases rs.len(),
{
    if rs.len() == 0 {
        seq![]
    } else {
        let prev = failed_indices(rs.drop_last());
        if rs.last() is Err {
            prev.push(rs.len() - 1)
        } else {
            prev
        }
    }
}

proof fn lemma_counts_bounded(rs: Seq<Result<FileScan, AppError>>)
    ensures
        processed_count(rs) + failed_count(rs) == rs.len(),
        large_count(rs) <= processed_count(rs),
        reported_indices(rs).len() <= rs.len(),
        failed_indices(rs).len() == failed_count(rs),
        forall|j: int|
            0 <= j < reported_indices(rs).len() ==> 0 <= #[trigger] reported_indices(rs)[j]
                < rs.len(),
    decreases rs.len(),
{
    if rs.len() > 0 {
        lemma_counts_bounded(rs.drop_last());
    }
}

/// Folds the outcomes of a run, one per scanned file and in the order of the
/// scanned list, into the report and the counters. `names` gives each file's
/// name relative to the scan root. The run fails, as a whole, exactly when
/// no scan completed, which includes an empty list.
pub fn aggregate(names: Vec<String>, results: Vec<Result<FileScan, AppError>>) -> (r: Result<
    (ScanReport, ScanStats),
    AppError,
>)
    requires
        names.len() == results.len(),
        error_total(results@) <= usize::MAX,
    ensures
        r is Err <==> processed_count(results@) == 0,
        r is Err ==> (r->Err_0 matches AppError::IoError { kind, .. } && kind == IoKind::Other),
        r is Ok ==> ({
            let (report, stats) = r->Ok_0;
            let idx = reported_indices(results@);
            let fidx = failed_indices(results@);
            &&& stats.total_files == results.len()
            &&& stats.processed_files == processed_count(results@)
            &&& stats.skipped_files == failed_count(results@)
            &&& stats.total_errors == error_total(results@)
            &&& stats.large_files == large_count(results@)
            &&& report.files.len() == idx.len()
            &&& forall|j: int|
                0 <= j < idx.len() ==> {
                    &&& (#[trigger] report.files@[j]).name == names@[idx[j]]
                    &&& report.files@[j].lines == results@[idx[j]]->Ok_0.entries
                }
            &&& report.failures.len() == fidx.len()
            &&& forall|j: int|
                0 <= j < fidx.len() ==> {
                    &&& (#[trigger] report.failures@[j]).index == fidx[j]
                    &&& report.failures@[j].error == results@[fidx[j]]->Err_0
                }
        }),
{
    let n: usize = results.len();
    let ghost all_names = names@;
    let ghost all = results@;
    let mut names = names;
    let mut results = results;
    let mut files: Vec<FileErrors> = Vec::new();
    let mut failures: Vec<FileFailure> = Vec::new();
    let mut processed: usize = 0;
    let mut skipped: usize = 0;
    let mut errors: usize = 0;
    let mut large: usize = 0;
    let mut i: usize = 0;
    proof {
        lemma_counts_bounded(all);
    }
    while i < n
        invariant
            n == all.len(),
            n == all_names.len(),
            i <= n,
            results@ == all.subrange(i as int, n as int),
            names@ == all_names.subrange(i as int, n as int),
            error_total(all) <= usize::MAX,
            processed == processed_count(all.subrange(0, i as int)),
            skipped == failed_count(all.subrange(0, i as int)),
            errors == error_total(all.subrange(0, i as int)),
            large == large_count(all.subrange(0, i as int)),
            files.len() == reported_indices(all.subrange(0, i as int)).len(),
            forall|j: int|
                0 <= j < files.len() ==> {
                    let idx = reported_indices(all.subrange(0, i as int));
                    &&& (#[trigger] files@[j]).name == all_names[idx[j]]
                    &&& files@[j].lines == all[idx[j]]->Ok_0.entries
                },
            failures.len() == failed_indices(all.subrange(0, i as int)).len(),
            forall|j: int|
                0 <= j < failures.len() ==> {
                    let fidx = failed_indices(all.subrange(0, i as int));
                    &&& (#[trigger] failures@[j]).index == fidx[j]
                    &&& failures@[j].error == all[fidx[j]]->Err_0
                },
        decreases n - i,
    {
        let ghost pre = all.subrange(0, i as int);
        let ghost next = all.subrange(0, i + 1);
        assert(next.drop_last() =~= pre);
        assert(next.last() == all[i as int]);
        proof {
            lemma_counts_bounded(pre);
            lemma_counts_bounded(next);
            lemma_error_total_prefix(all, i + 1);
        }
        let name = names.remove(0);
        let result = results.remove(0);
        assert(result == all[i as int]);
        assert(name == all_names[i as int]);
        match result {
            Ok(scan) => {
                processed = processed + 1;
                if scan.large {
                    large = large + 1;
                }
                errors = errors + scan.entries.len();
                if scan.entries.len() > 0 {
                    files.push(FileErrors { name, lines: scan.entries });
                }
            },
            Err(error) => {
                skipped = skipped + 1;
                failures.push(FileFailure { index: i, error });
            },
        }
        i = i + 1;
    }
    assert(all.subrange(0, n as int) =~= all);
    if processed == 0 {
        return Err(
            AppError::IoError { kind: IoKind::Other, detail: "Could not process any files".to_owned() },
        );
    }
    let mut stats = ScanStats::new();
    stats.total_files = n;
    stats.processed_files = processed;
    stats.total_errors = errors;
    stats.skipped_files = skipped;
    stats.large_files = large;
    Ok((ScanReport { files, failures }, stats))
}

/// A file whose scan failed, a timeout included, puts no entry in the
/// report, whatever error lines it had shown before failing, and counts as
/// skipped.
pub proof fn lemma_failed_file_not_reported(rs: Seq<Result<FileScan, AppError>>, i: int)
    requires
        0 <= i < rs.len(),
        rs[i] is Err,
    ensures
        forall|j: int|
            0 <= j < reported_indices(rs).len() ==> #[trigger] reported_indices(rs)[j] != i,
        failed_indices(rs).contains(i),
        failed_count(rs) >= 1,
    decreases rs.len(),
{
    let prev = rs.drop_last();
    lemma_counts_bounded(rs);
    lemma_counts_bounded(prev);
    if i < rs.len() - 1 {
        assert(prev[i] == rs[i]);
        lemma_failed_file_not_reported(prev, i);
        let k = choose|k: int| 0 <= k < failed_indices(prev).len() && failed_indices(prev)[k] == i;
        assert(failed_indices(rs)[k] == i);
    } else {
        assert(failed_indices(rs).last() == i);
    }
}

proof fn lemma_error_total_prefix(rs: Seq<Result<FileScan, AppError>>, k: int)
    requires
        0 <= k <= rs.len(),
    ensures
        error_total(rs.subrange(0, k)) <= error_total(rs),
    decreases rs.len() - k,
{
    if k < rs.len() {
        lemma_error_total_prefix(rs, k + 1);
        assert(rs.subrange(0, k + 1).drop_last() =~= rs.subrange(0, k));
    } else {
        assert(rs.subrange(0, k) =~= rs);
    }
}

} // verus!
