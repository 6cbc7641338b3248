//! What the views show of a decoded status: the numbers of the dashboard
//! and the list of files of the staging view.

use vstd::prelude::*;
use vstd::string::*;
use crate::status::{FileEntry, FileEntryView, FileStatus, RepoStatus, RepoStatusView};
use crate::log::{CommitEntry, CommitEntryView};

verus! {

// ---------------------------------------------------------------------------
// The dashboard
// ---------------------------------------------------------------------------

/// What the dashboard shows.
#[derive(Debug, Clone)]
pub struct DashboardState {
    pub branch: String,
    pub upstream: Option<String>,
    pub ahead: u32,
    pub behind: u32,
    pub staged_count: usize,
    pub unstaged_count: usize,
    pub untracked_count: usize,
    pub conflict_count: usize,
    pub stash_count: u32,
    pub is_clean: bool,
    pub recent_commits: Vec<CommitEntry>,
    pub error: Option<String>,
}

/// The mathematical value of a `DashboardState`.
pub struct DashboardStateView {
    pub branch: Seq<char>,
    pub upstream: Option<Seq<char>>,
    pub ahead: u32,
    pub behind: u32,
    pub staged_count: usize,
    pub unstaged_count: usize,
    pub untracked_count: usize,
    pub conflict_count: usize,
    pub stash_count: u32,
    pub is_clean: bool,
    pub recent_commits: Seq<CommitEntryView>,
    pub error: Option<Seq<char>>,
}

impl View for DashboardState {
    type V = DashboardStateView;

    open spec fn view(&self) -> DashboardStateView {
        DashboardStateView {
            branch: self.branch@,
            upstream: self.upstream.deep_view(),
            ahead: self.ahead,
            behind: self.behind,
            staged_count: self.staged_count,
            unstaged_count: self.unstaged_count,
            untracked_count: self.untracked_count,
            conflict_count: self.conflict_count,
            stash_count: self.stash_count,
            is_clean: self.is_clean,
            recent_commits: self.recent_commits.deep_view(),
            error: self.error.deep_view(),
        }
    }
}

/// The dashboard before anything is known: no branch, no changes, clean.
pub open spec fn blank_dashboard() -> DashboardStateView {
    DashboardStateView {
        branch: Seq::empty(),
        upstream: None,
        ahead: 0,
        behind: 0,
        staged_count: 0,
        unstaged_count: 0,
        untracked_count: 0,
        conflict_count: 0,
        stash_count: 0,
        is_clean: true,
        recent_commits: Seq::empty(),
        error: None,
    }
}

/// The dashboard with the numbers of a status.
pub open spec fn with_status(d: DashboardStateView, status: RepoStatusView) -> DashboardStateView {
    DashboardStateView {
        branch: status.branch,
        upstream: status.upstream,
        ahead: status.ahead,
        behind: status.behind,
        staged_count: status.staged.len() as usize,
        unstaged_count: status.unstaged.len() as usize,
        untracked_count: status.untracked.len() as usize,
        conflict_count: status.conflicts.len() as usize,
        stash_count: status.stash_count,
        is_clean: status.staged.len() == 0 && status.unstaged.len() == 0
            && status.untracked.len() == 0 && status.conflicts.len() == 0,
        error: None,
        ..d
    }
}

/// The dashboard after a refresh: with the numbers of the status, or, where
/// the status could not be had, with the error and the numbers it had; and
/// with the recent commits, or none where they could not be had.
pub open spec fn refreshed(
    d: DashboardStateView,
    status: Result<RepoStatusView, Seq<char>>,
    commits: Option<Seq<CommitEntryView>>,
) -> DashboardStateView {
    let shown = match status {
        Ok(s) => with_status(d, s),
        Err(e) => DashboardStateView { error: Some(e), ..d },
    };
    DashboardStateView {
        recent_commits: match commits {
            Some(c) => c,
            None => Seq::empty(),
        },
        ..shown
    }
}

impl Default for DashboardState {
    fn default() -> (d: Self)
        ensures
            d@ == blank_dashboard(),
    {
        let d = DashboardState {
            branch: String::new(),
            upstream: None,
            ahead: 0,
            behind: 0,
            staged_count: 0,
            unstaged_count: 0,
            untracked_count: 0,
            conflict_count: 0,
            stash_count: 0,
            is_clean: true,
            recent_commits: Vec::new(),
            error: None,
        };
        assert(d@.recent_commits =~= Seq::<CommitEntryView>::empty());
        d
    }
}

impl DashboardState {
    /// Takes in the status and the recent commits, each as it was decoded
    /// or the error in its place.
    pub fn refresh(
        &mut self,
        status: Result<RepoStatus, String>,
        commits: Result<Vec<CommitEntry>, String>,
    )
        ensures
            final(self)@ == refreshed(
                old(self)@,
                match status {
                    Ok(s) => Ok(s@),
                    Err(e) => Err(e@),
                },
                match commits {
                    Ok(c) => Some(c.deep_view()),
                    Err(_) => None,
                },
            ),
    {
        match status {
            Ok(status) => {
                self.is_clean = status.is_clean();
                self.staged_count = status.staged.len();
                self.unstaged_count = status.unstaged.len();
                self.untracked_count = status.untracked.len();
                self.conflict_count = status.conflicts.len();
                self.stash_count = status.stash_count;
                self.ahead = status.ahead;
                self.behind = status.behind;
                self.branch = status.branch;
                self.upstream = status.upstream;
                self.error = None;
            },
            Err(e) => {
                self.error = Some(e);
            },
        }
        match commits {
            Ok(list) => {
                self.recent_commits = list;
            },
            Err(_) => {
                self.recent_commits = Vec::new();
                assert(self.recent_commits.deep_view() =~= Seq::<CommitEntryView>::empty());
            },
        }
    }
}

// ---------------------------------------------------------------------------
// The files of the staging view
// ---------------------------------------------------------------------------

/// One file of the staging view.
#[derive(Debug, Clone)]
pub struct StagingFile {
    pub path: String,
    pub status: FileStatus,
    pub is_staged: bool,
}

/// The mathematical value of a `StagingFile`.
pub struct StagingFileView {
    pub path: Seq<char>,
    pub status: FileStatus,
    pub is_staged: bool,
}

impl View for StagingFile {
    type V = StagingFileView;

    open spec fn view(&self) -> StagingFileView {
        StagingFileView { path: self.path@, status: self.status, is_staged: self.is_staged }
    }
}

impl DeepView for StagingFile {
    type V = StagingFileView;

    open spec fn deep_view(&self) -> StagingFileView {
        self@
    }
}

/// The file of an entry.
pub open spec fn file_of(e: FileEntryView, is_staged: bool) -> StagingFileView {
    StagingFileView { path: e.path, status: e.status, is_staged }
}

/// The list holds the path as an unstaged file.
pub open spec fn holds_unstaged(files: Seq<StagingFileView>, path: Seq<char>) -> bool {
    exists|i: int| 0 <= i < files.len() && (#[trigger] files[i]).path == path && !files[i].is_staged
}

/// The list with the first `n` of `entries` added, all staged or all not.
pub open spec fn with_all(
    files: Seq<StagingFileView>,
    entries: Seq<FileEntryView>,
    is_staged: bool,
    n: nat,
) -> Seq<StagingFileView>
    decreases n,
{
    if n == 0 {
        files
    } else {
        with_all(files, entries, is_staged, (n - 1) as nat).push(file_of(entries[n - 1], is_staged))
    }
}

/// The list with the first `n` of the unstaged `entries` added; a path
/// that the list holds as an unstaged file already is passed over.
pub open spec fn with_unstaged(
    files: Seq<StagingFileView>,
    entries: Seq<FileEntryView>,
    n: nat,
) -> Seq<StagingFileView>
    decreases n,
{
    if n == 0 {
        files
    } else {
        let before = with_unstaged(files, entries, (n - 1) as nat);
        if holds_unstaged(before, entries[n - 1].path) {
            before
        } else {
            before.push(file_of(entries[n - 1], false))
        }
    }
}

/// The files of the staging view: the staged files, then the unstaged
/// ones, each path once, then the untracked ones. A path that is staged
/// and changed again stands twice, once as staged.
pub open spec fn staging_list(status: RepoStatusView) -> Seq<StagingFileView> {
    let staged = with_all(Seq::empty(), status.staged, true, status.staged.len());
    let unstaged = with_unstaged(staged, status.unstaged, status.unstaged.len());
    with_all(unstaged, status.untracked, false, status.untracked.len())
}

/// The selection of a list of `len` entries: as it is where it points
/// into the list or the list is empty, else on the last entry.
pub open spec fn clamped(selected: usize, len: nat) -> usize {
    if selected >= len && len > 0 {
        (len - 1) as usize
    } else {
        selected
    }
}

fn push_all(files: &mut Vec<StagingFile>, entries: &Vec<FileEntry>, is_staged: bool)
    ensures
        final(files).deep_view() == with_all(
            old(files).deep_view(),
            entries.deep_view(),
            is_staged,
            entries.len() as nat,
        ),
{
    let mut i: usize = 0;
    while i < entries.len()
        invariant
            i <= entries.len(),
            files.deep_view() == with_all(
                old(files).deep_view(),
                entries.deep_view(),
                is_staged,
                i as nat,
            ),
        decreases entries.len() - i,
    {
        let e = &entries[i];
        assert(entries.deep_view()[i as int] == e@);
        let ghost before = files.deep_view();
        let file = StagingFile { path: e.path.clone(), status: e.status, is_staged };
        files.push(file);
        assert(files.deep_view() =~= before.push(file@));
        i += 1;
    }
}

fn has_unstaged(files: &Vec<StagingFile>, path: &String) -> (b: bool)
    ensures
        b == holds_unstaged(files.deep_view(), path@),
{
    let mut i: usize = 0;
    while i < files.len()
        invariant
            i <= files.len(),
            forall|j: int|
                0 <= j < i ==> !((#[trigger] files.deep_view()[j]).path == path@
                    && !files.deep_view()[j].is_staged),
        decreases files.len() - i,
    {
        assert(files.deep_view()[i as int] == files@[i as int]@);
        if files[i].path == *path && !files[i].is_staged {
            return true;
        }
        i += 1;
    }
    false
}

/// The files of the staging view for a status; none where the status could
/// not be had.
pub fn staging_files(status: Option<&RepoStatus>) -> (files: Vec<StagingFile>)
    ensures
        files.deep_view() == match status {
            Some(s) => staging_list(s@),
            None => Seq::empty(),
        },
{
    let mut files: Vec<StagingFile> = Vec::new();
    assert(files.deep_view() =~= Seq::<StagingFileView>::empty());
    match status {
        Some(s) => {
            push_all(&mut files, &s.staged, true);
            let ghost staged = files.deep_view();
            let mut i: usize = 0;
            while i < s.unstaged.len()
                invariant
                    i <= s.unstaged.len(),
                    files.deep_view() == with_unstaged(staged, s.unstaged.deep_view(), i as nat),
                decreases s.unstaged.len() - i,
            {
                let e = &s.unstaged[i];
                assert(s.unstaged.deep_view()[i as int] == e@);
                let ghost before = files.deep_view();
                if !has_unstaged(&files, &e.path) {
                    let file = StagingFile {
                        path: e.path.clone(),
                        status: e.status,
                        is_staged: false,
                    };
                    files.push(file);
                    assert(files.deep_view() =~= before.push(file@));
                }
                i += 1;
            }
            push_all(&mut files, &s.untracked, false);
        },
        None => {},
    }
    files
}

/// The selection of a list of `len` entries, kept inside the list.
pub fn clamp_selection(selected: usize, len: usize) -> (r: usize)
    ensures
        r == clamped(selected, len as nat),
{
    if selected >= len && len > 0 {
        len - 1
    } else {
        selected
    }
}

} // verus!
