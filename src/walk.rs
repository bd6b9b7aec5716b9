use vstd::prelude::*;
use crate::error::{AppError, IoKind};

verus! {

/// What a directory entry turned out to be.
#[derive(Clone, Copy, Debug, PartialEq, Eq, Structural)]
pub enum EntryKind {
    /// A regular file, with the classifier's verdict on it.
    File { is_text: bool },
    /// A directory, to be walked in turn.
    Dir,
    /// Anything else, which the walk passes over.
    Other,
}

/// One item of a directory listing.
#[derive(Debug)]
pub enum DirEntry {
    /// An entry that could be read, with its full path.
    Found { path: String, kind: EntryKind },
    /// An entry that could not be read, with the cause.
    Unreadable { kind: IoKind, cause: String },
}

/// Why a directory could not be listed.
#[derive(Debug)]
pub struct ListFailure {
    pub kind: IoKind,
    pub cause: String,
}

/// A failure that the walk reports and passes over.
#[derive(Debug)]
pub enum WalkWarning {
    /// A subdirectory that could not be listed for want of permission.
    DirDenied(String),
    /// A subdirectory that could not be listed for another cause.
    DirFailed { path: String, kind: IoKind, cause: String },
    /// An entry of the named directory that could not be read for want of
    /// permission.
    EntryDenied(String),
    /// An entry of the named directory that could not be read for another
    /// cause.
    EntryFailed { dir: String, kind: IoKind, cause: String },
}

/// A warning with its text as character sequences.
pub enum WarningModel {
    DirDenied(Seq<char>),
    DirFailed(Seq<char>, IoKind, Seq<char>),
    EntryDenied(Seq<char>),
    EntryFailed(Seq<char>, IoKind, Seq<char>),
}

/// The model of a warning.
pub open spec fn warning_model(w: WalkWarning) -> WarningModel {
    match w {
        WalkWarning::DirDenied(p) => WarningModel::DirDenied(p@),
        WalkWarning::DirFailed { path, kind, cause } => WarningModel::DirFailed(path@, kind, cause@),
        WalkWarning::EntryDenied(d) => WarningModel::EntryDenied(d@),
        WalkWarning::EntryFailed { dir, kind, cause } => WarningModel::EntryFailed(dir@, kind, cause@),
    }
}

/// The models of a sequence of warnings.
pub open spec fn warnings_model(ws: Seq<WalkWarning>) -> Seq<WarningModel> {
    ws.map_values(|w: WalkWarning| warning_model(w))
}

/// The texts of a sequence of strings.
pub open spec fn texts(v: Seq<String>) -> Seq<Seq<char>> {
    v.map_values(|s: String| s@)
}

/// The paths of the text files of a listing, in listing order.
pub open spec fn text_files(es: Seq<DirEntry>) -> Seq<Seq<char>>
    decreases es.len(),
{
    if es.len() == 0 {
        seq![]
    } else {
        let prev = text_files(es.drop_last());
        match es.last() {
            DirEntry::Found { path, kind: EntryKind::File { is_text: true } } => prev.push(path@),
            _ => prev,
        }
    }
}

/// The paths of the subdirectories of a listing, in listing order.
pub open spec fn subdirs(es: Seq<DirEntry>) -> Seq<Seq<char>>
    decreases es.len(),
{
    if es.len() == 0 {
        seq![]
    } else {
        let prev = subdirs(es.drop_last());
        match es.last() {
            DirEntry::Found { path, kind: EntryKind::Dir } => prev.push(path@),
            _ => prev,
        }
    }
}

/// The warning for an unreadable entry of directory `dir`.
pub open spec fn entry_warning(dir: Seq<char>, kind: IoKind, cause: Seq<char>) -> WarningModel {
    if kind == IoKind::PermissionDenied {
        WarningModel::EntryDenied(dir)
    } else {
        WarningModel::EntryFailed(dir, kind, cause)
    }
}

/// The warnings for the unreadable entries of a listing of `dir`.
pub open spec fn entry_warnings(dir: Seq<char>, es: Seq<DirEntry>) -> Seq<WarningModel>
    decreases es.len(),
{
    if es.len() == 0 {
        seq![]
    } else {
        let prev = entry_warnings(dir, es.drop_last());
        match es.last() {
            DirEntry::Unreadable { kind, cause } => prev.push(entry_warning(dir, kind, cause@)),
            _ => prev,
        }
    }
}

/// The warning for a subdirectory `dir` that could not be listed.
pub open spec fn dir_warning(dir: Seq<char>, kind: IoKind, cause: Seq<char>) -> WarningModel {
    if kind == IoKind::PermissionDenied {
        WarningModel::DirDenied(dir)
    } else {
        WarningModel::DirFailed(dir, kind, cause)
    }
}

proof fn lemma_listing_concat(dir: Seq<char>, a: Seq<DirEntry>, b: Seq<DirEntry>)
    ensures
        text_files(a + b) == text_files(a) + text_files(b),
        subdirs(a + b) == subdirs(a) + subdirs(b),
        entry_warnings(dir, a + b) == entry_warnings(dir, a) + entry_warnings(dir, b),
    decreases b.len(),
{
    if b.len() == 0 {
        assert(a + b =~= a);
        assert(text_files(a) + text_files(b) =~= text_files(a));
        assert(subdirs(a) + subdirs(b) =~= subdirs(a));
        assert(entry_warnings(dir, a) + entry_warnings(dir, b) =~= entry_warnings(dir, a));
    } else {
        lemma_listing_concat(dir, a, b.drop_last());
        assert((a + b).drop_last() =~= a + b.drop_last());
        assert((a + b).last() == b.last());
        let tb = text_files(b.drop_last());
        let sb = subdirs(b.drop_last());
        let wb = entry_warnings(dir, b.drop_last());
        match b.last() {
            DirEntry::Found { path, kind: EntryKind::File { is_text: true } } => {
                assert(text_files(a) + tb.push(path@) =~= (text_files(a) + tb).push(path@));
            },
            DirEntry::Found { path, kind: EntryKind::Dir } => {
                assert(subdirs(a) + sb.push(path@) =~= (subdirs(a) + sb).push(path@));
            },
            DirEntry::Unreadable { kind, cause } => {
                let w = entry_warning(dir, kind, cause@);
                assert(entry_warnings(dir, a) + wb.push(w) =~= (entry_warnings(dir, a) + wb).push(w));
            },
            _ => {},
        }
    }
}

/// A subdirectory that cannot be listed for want of permission leaves the
/// files found as they would be without it: wherever its entry stands in its
/// parent's listing, the listing yields the same text files and the same
/// entry warnings as without it, and its own failed listing raises exactly
/// one warning, which names it.
pub proof fn lemma_unreadable_subdir_only_warns(
    dir: Seq<char>,
    es: Seq<DirEntry>,
    k: int,
    sub: DirEntry,
    cause: Seq<char>,
)
    requires
        0 <= k <= es.len(),
        sub matches DirEntry::Found { kind, .. } && kind == EntryKind::Dir,
    ensures
        ({
            let with = es.subrange(0, k) + seq![sub] + es.subrange(k, es.len() as int);
            &&& text_files(with) == text_files(es)
            &&& entry_warnings(dir, with) == entry_warnings(dir, es)
            &&& subdirs(with) == subdirs(es.subrange(0, k)) + seq![sub->path@] + subdirs(
                es.subrange(k, es.len() as int),
            )
        }),
        dir_warning(sub->path@, IoKind::PermissionDenied, cause) == WarningModel::DirDenied(
            sub->path@,
        ),
{
    let a = es.subrange(0, k);
    let b = es.subrange(k, es.len() as int);
    assert(es =~= a + b);
    lemma_listing_concat(dir, a, b);
    lemma_listing_concat(dir, a, seq![sub]);
    lemma_listing_concat(dir, a + seq![sub], b);
    let one = seq![sub];
    assert(one.drop_last() =~= Seq::<DirEntry>::empty());
    assert(one.last() == sub);
    assert(text_files(one.drop_last()) =~= Seq::<Seq<char>>::empty());
    assert(subdirs(one.drop_last()) =~= Seq::<Seq<char>>::empty());
    assert(entry_warnings(dir, one.drop_last()) =~= Seq::<WarningModel>::empty());
    assert(text_files(seq![sub]) =~= Seq::<Seq<char>>::empty());
    assert(entry_warnings(dir, seq![sub]) =~= Seq::<WarningModel>::empty());
    assert(subdirs(seq![sub]) =~= seq![sub->path@]);
    assert(text_files(a) + Seq::<Seq<char>>::empty() =~= text_files(a));
    assert(entry_warnings(dir, a) + Seq::<WarningModel>::empty() =~= entry_warnings(dir, a));
}

/// A walk of a directory tree, one directory listing at a time. The caller
/// asks for the next directory, lists it and hands the listing back; the
/// walker keeps the text files found and the directories still to list.
pub struct Walker {
    pending: Vec<String>,
    files: Vec<String>,
    started: bool,
}

impl Walker {
    /// The directories still to list; the last is listed next.
    pub closed spec fn pending(&self) -> Seq<Seq<char>> {
        texts(self.pending@)
    }

    /// The text files found so far.
    pub closed spec fn files(&self) -> Seq<Seq<char>> {
        texts(self.files@)
    }

    /// Whether the root was listed already.
    pub closed spec fn started(&self) -> bool {
        self.started
    }

    /// A walk of the tree under `root`.
    pub fn new(root: String) -> (r: Walker)
        ensures
            r.pending() == seq![root@],
            r.files() == Seq::<Seq<char>>::empty(),
            !r.started(),
    {
        let mut pending: Vec<String> = Vec::new();
        pending.push(root);
        let files: Vec<String> = Vec::new();
        let r = Walker { pending, files, started: false };
        assert(r.pending() =~= seq![root@]);
        assert(r.files() =~= Seq::<Seq<char>>::empty());
        r
    }

    /// The next directory to list, if any is left.
    pub fn next_dir(&mut self) -> (r: Option<String>)
        ensures
            final(self).files() == old(self).files(),
            final(self).started() == old(self).started(),
            old(self).pending().len() == 0 ==> r is None && final(self).pending() == old(
                self,
            ).pending(),
            old(self).pending().len() > 0 ==> r is Some && r->Some_0@ == old(self).pending().last()
                && final(self).pending() == old(self).pending().drop_last(),
    {
        let ghost before = self.pending@;
        let r = self.pending.pop();
        proof {
            if before.len() > 0 {
                assert(texts(self.pending@) =~= texts(before).drop_last());
            }
        }
        r
    }

    /// Takes the listing of directory `dir`, and gives back the warnings it
    /// raises. A failure to list the root ends the walk: with the permission
    /// error when access was refused, with the I/O error otherwise. A failure
    /// to list any later directory is one warning, and the walk goes on. A
    /// listing adds its text files to the files found and its subdirectories
    /// to those still to list, and raises one warning per unreadable entry.
    pub fn visit(&mut self, dir: &str, listing: Result<Vec<DirEntry>, ListFailure>) -> (r: Result<
        Vec<WalkWarning>,
        AppError,
    >)
        ensures
            final(self).started(),
            r is Err <==> (!old(self).started() && listing is Err),
            r is Err ==> ({
                let f = listing->Err_0;
                &&& f.kind == IoKind::PermissionDenied ==> (r->Err_0 matches AppError::PermissionDenied(
                    p,
                ) && p@ == dir@)
                &&& f.kind != IoKind::PermissionDenied ==> (r->Err_0 matches AppError::IoError {
                    kind,
                    detail,
                } && kind == f.kind && detail@ == f.cause@)
            }),
            listing is Err ==> final(self).files() == old(self).files() && final(self).pending()
                == old(self).pending(),
            r is Ok && listing is Err ==> warnings_model(r->Ok_0@) == seq![
                dir_warning(dir@, listing->Err_0.kind, listing->Err_0.cause@),
            ],
            listing is Ok ==> ({
                let es = listing->Ok_0@;
                &&& r is Ok
                &&& warnings_model(r->Ok_0@) == entry_warnings(dir@, es)
                &&& final(self).files() == old(self).files() + text_files(es)
                &&& final(self).pending() == old(self).pending() + subdirs(es)
            }),
    {
        let root = !self.started;
        self.started = true;
        match listing {
            Err(f) => {
                if root {
                    if f.kind == IoKind::PermissionDenied {
                        Err(AppError::PermissionDenied(dir.to_owned()))
                    } else {
                        Err(AppError::IoError { kind: f.kind, detail: f.cause })
                    }
                } else {
                    let w = if f.kind == IoKind::PermissionDenied {
                        WalkWarning::DirDenied(dir.to_owned())
                    } else {
                        WalkWarning::DirFailed { path: dir.to_owned(), kind: f.kind, cause: f.cause }
                    };
                    let mut ws: Vec<WalkWarning> = Vec::new();
                    ws.push(w);
                    assert(warnings_model(ws@) =~= seq![
                        dir_warning(dir@, listing->Err_0.kind, listing->Err_0.cause@),
                    ]);
                    Ok(ws)
                }
            },
            Ok(entries) => {
                let ghost es = entries@;
                let ghost files0 = texts(self.files@);
                let ghost pending0 = texts(self.pending@);
                let mut ws: Vec<WalkWarning> = Vec::new();
                let n: usize = entries.len();
                let mut i: usize = 0;
                while i < n
                    invariant
                        n == es.len(),
                        entries@ == es,
                        i <= n,
                        self.started,
                        texts(self.files@) == files0 + text_files(es.subrange(0, i as int)),
                        texts(self.pending@) == pending0 + subdirs(es.subrange(0, i as int)),
                        warnings_model(ws@) == entry_warnings(dir@, es.subrange(0, i as int)),
                    decreases n - i,
                {
                    let ghost pre = es.subrange(0, i as int);
                    let ghost next = es.subrange(0, i + 1);
                    assert(next.drop_last() =~= pre);
                    let ghost f0 = self.files@;
                    let ghost p0 = self.pending@;
                    let ghost w0 = ws@;
                    match &entries[i] {
                        DirEntry::Found { path, kind } => {
                            match kind {
                                EntryKind::File { is_text } => {
                                    if *is_text {
                                        self.files.push(path.clone());
                                        assert(texts(self.files@) =~= texts(f0).push(path@));
                                    }
                                },
                                EntryKind::Dir => {
                                    self.pending.push(path.clone());
                                    assert(texts(self.pending@) =~= texts(p0).push(path@));
                                },
                                EntryKind::Other => {},
                            }
                        },
                        DirEntry::Unreadable { kind, cause } => {
                            let w = if *kind == IoKind::PermissionDenied {
                                WalkWarning::EntryDenied(dir.to_owned())
                            } else {
                                WalkWarning::EntryFailed {
                                    dir: dir.to_owned(),
                                    kind: *kind,
                                    cause: cause.clone(),
                                }
                            };
                            ws.push(w);
                            assert(warnings_model(ws@) =~= warnings_model(w0).push(
                                warning_model(w),
                            ));
                        },
                    }
                    i = i + 1;
                }
                assert(es.subrange(0, n as int) =~= es);
                Ok(ws)
            },
        }
    }

    /// Ends the walk, handing out the text files found.
    pub fn into_files(self) -> (r: Vec<String>)
        ensures
            texts(r@) == self.files(),
    {
        self.files
    }
}

} // verus!
