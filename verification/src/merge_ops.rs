//! The operation in progress: telling which one it is, and the commands
//! that abort it, continue it or try a merge out.

use vstd::prelude::*;
use vstd::string::*;
use crate::text::{chars_of, string_of};
use crate::search::{contains_str, contains_lit};
use crate::split::{trim, trimmed};
use crate::command::{GitCommand, GitCommandView, strings_of};
use crate::merge::{MergeType, MergeState};
use crate::status::{RepoStatus, entry_paths, paths_of};

verus! {

/// The mathematical value of a `MergeState`.
pub struct MergeStateView {
    pub merge_type: MergeType,
    pub head_name: Seq<char>,
    pub merge_head: Option<Seq<char>>}

impl View for MergeState {
    type V = MergeStateView;

    open spec fn view(&self) -> MergeStateView {
        MergeStateView {
            merge_type: self.merge_type,
            head_name: self.head_name@,
            merge_head: self.merge_head.deep_view()}
    }
}

/// What was found in the repository's `.git` directory: which marker files
/// of an operation in progress exist, and the text of those that could be
/// read.
#[derive(Debug, Clone)]
pub struct OperationMarkers {
    /// `MERGE_HEAD` exists.
    pub merge_head_exists: bool,
    /// The text of `MERGE_HEAD`, where it could be read.
    pub merge_head: Option<String>,
    /// The directory `rebase-merge` exists.
    pub rebase_merge_exists: bool,
    /// The directory `rebase-apply` exists.
    pub rebase_apply_exists: bool,
    /// `CHERRY_PICK_HEAD` exists.
    pub cherry_pick_head_exists: bool,
    /// The text of `CHERRY_PICK_HEAD`, where it could be read.
    pub cherry_pick_head: Option<String>}

/// The mathematical value of `OperationMarkers`.
pub struct OperationMarkersView {
    pub merge_head_exists: bool,
    pub merge_head: Option<Seq<char>>,
    pub rebase_merge_exists: bool,
    pub rebase_apply_exists: bool,
    pub cherry_pick_head_exists: bool,
    pub cherry_pick_head: Option<Seq<char>>}

impl View for OperationMarkers {
    type V = OperationMarkersView;

    open spec fn view(&self) -> OperationMarkersView {
        OperationMarkersView {
            merge_head_exists: self.merge_head_exists,
            merge_head: self.merge_head.deep_view(),
            rebase_merge_exists: self.rebase_merge_exists,
            rebase_apply_exists: self.rebase_apply_exists,
            cherry_pick_head_exists: self.cherry_pick_head_exists,
            cherry_pick_head: self.cherry_pick_head.deep_view()}
    }
}

/// `text` without the white space at its ends, where there is a text.
pub open spec fn trimmed_text(text: Option<Seq<char>>) -> Option<Seq<char>> {
    match text {
        Some(t) => Some(trim(t)),
        None => None}
}

/// The name of the head: what `git rev-parse --abbrev-ref HEAD` printed,
/// trimmed, or `HEAD` where that call failed.
pub open spec fn head_name_of(head: Option<Seq<char>>) -> Seq<char> {
    match head {
        Some(h) => trim(h),
        None => trim("HEAD"@)}
}

/// The operation in progress, told from the marker files: `MERGE_HEAD`
/// means a merge, `rebase-merge` or `rebase-apply` a rebase,
/// `CHERRY_PICK_HEAD` a cherry-pick, in this order; none of them means
/// that no operation is in progress.
pub open spec fn merge_state_of(head: Option<Seq<char>>, m: OperationMarkersView) -> Option<
    MergeStateView,
> {
    if m.merge_head_exists {
        Some(
            MergeStateView {
                merge_type: MergeType::Merge,
                head_name: head_name_of(head),
                merge_head: trimmed_text(m.merge_head)},
        )
    } else if m.rebase_merge_exists || m.rebase_apply_exists {
        Some(
            MergeStateView {
                merge_type: MergeType::Rebase,
                head_name: head_name_of(head),
                merge_head: None},
        )
    } else if m.cherry_pick_head_exists {
        Some(
            MergeStateView {
                merge_type: MergeType::CherryPick,
                head_name: head_name_of(head),
                merge_head: trimmed_text(m.cherry_pick_head)},
        )
    } else {
        None
    }
}

fn trimmed_string(text: &str) -> (r: String)
    ensures
        r@ == trim(text@),
{
    string_of(&trimmed(&chars_of(text)))
}

fn trimmed_option(text: &Option<String>) -> (r: Option<String>)
    ensures
        r.deep_view() == trimmed_text(text.deep_view()),
{
    match text {
        Some(t) => Some(trimmed_string(t.as_str())),
        None => None}
}

/// Tells the operation in progress from what was found in the `.git`
/// directory; `head` is the output of `git rev-parse --abbrev-ref HEAD`,
/// or `None` where that call failed.
pub fn get_merge_state(head: Option<&str>, markers: &OperationMarkers) -> (state: Option<
    MergeState,
>)
    ensures
        state.deep_view() == merge_state_of(
            match head {
                Some(h) => Some(h@),
                None => None},
            markers@,
        ),
{
    let head_name = match head {
        Some(h) => trimmed_string(h),
        None => trimmed_string("HEAD")};
    if markers.merge_head_exists {
        Some(
            MergeState {
                merge_type: MergeType::Merge,
                head_name,
                merge_head: trimmed_option(&markers.merge_head)},
        )
    } else if markers.rebase_merge_exists || markers.rebase_apply_exists {
        Some(MergeState { merge_type: MergeType::Rebase, head_name, merge_head: None })
    } else if markers.cherry_pick_head_exists {
        Some(
            MergeState {
                merge_type: MergeType::CherryPick,
                head_name,
                merge_head: trimmed_option(&markers.cherry_pick_head)},
        )
    } else {
        None
    }
}

impl DeepView for MergeState {
    type V = MergeStateView;

    open spec fn deep_view(&self) -> MergeStateView {
        self@
    }
}

/// Why no command could be given.
#[derive(Debug, Clone, Copy, PartialEq, Eq, Structural)]
pub enum MergeError {
    /// No merge, rebase or cherry-pick is in progress.
    NothingInProgress}

impl MergeError {
    /// The error in words.
    pub fn message(&self) -> (s: String)
        ensures
            s@ == "No merge operation in progress"@,
    {
        String::from_str("No merge operation in progress")
    }
}

/// The arguments that abort an operation.
pub open spec fn abort_args(t: MergeType) -> Seq<Seq<char>> {
    match t {
        MergeType::Merge => seq!["merge"@, "--abort"@],
        MergeType::Rebase => seq!["rebase"@, "--abort"@],
        MergeType::CherryPick => seq!["cherry-pick"@, "--abort"@]}
}

/// The arguments that continue an operation once its conflicts are
/// resolved: a merge is concluded by a commit.
pub open spec fn continue_args(t: MergeType) -> Seq<Seq<char>> {
    match t {
        MergeType::Merge => seq!["commit"@, "--no-edit"@],
        MergeType::Rebase => seq!["rebase"@, "--continue"@],
        MergeType::CherryPick => seq!["cherry-pick"@, "--continue"@]}
}

fn two_words(first: &str, second: &str) -> (c: GitCommand)
    ensures
        c@ == (GitCommandView { args: seq![first@, second@], stdin: None }),
{
    let args = strings_of(vec![first, second]);
    assert(args.deep_view() =~= seq![first@, second@]);
    GitCommand { args, stdin: None }
}

/// The command that aborts the operation in progress, or the error that
/// none is.
pub fn abort_merge(state: Option<&MergeState>) -> (r: Result<GitCommand, MergeError>)
    ensures
        match state {
            Some(s) => r is Ok && r->Ok_0@ == (GitCommandView {
                args: abort_args(s.merge_type),
                stdin: None}),
            None => r == Err::<GitCommand, MergeError>(MergeError::NothingInProgress)},
{
    match state {
        Some(s) => match s.merge_type {
            MergeType::Merge => Ok(two_words("merge", "--abort")),
            MergeType::Rebase => Ok(two_words("rebase", "--abort")),
            MergeType::CherryPick => Ok(two_words("cherry-pick", "--abort"))},
        None => Err(MergeError::NothingInProgress)}
}

/// The command that continues the operation in progress, or the error
/// that none is.
pub fn continue_merge(state: Option<&MergeState>) -> (r: Result<GitCommand, MergeError>)
    ensures
        match state {
            Some(s) => r is Ok && r->Ok_0@ == (GitCommandView {
                args: continue_args(s.merge_type),
                stdin: None}),
            None => r == Err::<GitCommand, MergeError>(MergeError::NothingInProgress)},
{
    match state {
        Some(s) => match s.merge_type {
            MergeType::Merge => Ok(two_words("commit", "--no-edit")),
            MergeType::Rebase => Ok(two_words("rebase", "--continue")),
            MergeType::CherryPick => Ok(two_words("cherry-pick", "--continue"))},
        None => Err(MergeError::NothingInProgress)}
}

/// The command that stages the file at `file_path` once its resolved
/// text is written.
pub fn resolve_file(file_path: &str) -> (c: GitCommand)
    ensures
        c@ == (GitCommandView { args: seq!["add"@, file_path@], stdin: None }),
{
    two_words("add", file_path)
}

/// The command that tries the merge of `other_ref` out without
/// committing it.
pub fn merge_trial(other_ref: &str) -> (c: GitCommand)
    ensures
        c@ == (GitCommandView {
            args: seq!["merge"@, "--no-commit"@, "--no-ff"@, other_ref@],
            stdin: None}),
{
    let args = strings_of(vec!["merge", "--no-commit", "--no-ff", other_ref]);
    assert(args.deep_view() =~= seq!["merge"@, "--no-commit"@, "--no-ff"@, other_ref@]);
    GitCommand { args, stdin: None }
}

/// The merge base that `git merge-base HEAD <ref>` printed: its output
/// without the white space at its ends.
pub fn get_merge_base(output: &str) -> (base: String)
    ensures
        base@ == trim(output@),
{
    trimmed_string(output)
}

/// The command that shows what a merge of `other_ref` would bring in,
/// from the merge base `base` on.
pub fn get_merge_preview_diff(base: &str, other_ref: &str) -> (c: GitCommand)
    ensures
        c@ == (GitCommandView {
            args: seq!["diff"@, "--stat"@, base@, other_ref@],
            stdin: None}),
{
    let args = strings_of(vec!["diff", "--stat", base, other_ref]);
    assert(args.deep_view() =~= seq!["diff"@, "--stat"@, base@, other_ref@]);
    GitCommand { args, stdin: None }
}

/// The error text of a merge that stopped on conflicts.
pub open spec fn tells_of_conflicts(error: Seq<char>) -> bool {
    contains_str(error, "CONFLICT"@) || contains_str(error, "Automatic merge failed"@)
}

/// Does the error text of a trial merge tell of conflicts?
pub fn is_conflict_error(error: &str) -> (b: bool)
    ensures
        b == tells_of_conflicts(error@),
{
    let text = chars_of(error);
    contains_lit(&text, "CONFLICT") || contains_lit(&text, "Automatic merge failed")
}

/// What a trial merge (`git merge --no-commit --no-ff <ref>`) says of the
/// conflicts that the merge would have. `trial` is the trial's output or
/// its error text, `status` the status of the repository after it. A clean
/// trial has no conflicts; one that stopped on conflicts has the paths
/// that the status shows in conflict; any other failure is handed on.
pub fn check_merge_conflicts(trial: &Result<String, String>, status: &RepoStatus) -> (r: Result<
    Vec<String>,
    String,
>)
    ensures
        match trial {
            Ok(_) => r is Ok && r->Ok_0.deep_view() == Seq::<Seq<char>>::empty(),
            Err(e) => if tells_of_conflicts(e@) {
                r is Ok && r->Ok_0.deep_view() == entry_paths(status@.conflicts)
            } else {
                r is Err && r->Err_0@ == e@
            }},
{
    match trial {
        Ok(_) => {
            let none: Vec<String> = Vec::new();
            assert(none.deep_view() =~= Seq::<Seq<char>>::empty());
            Ok(none)
        },
        Err(e) => {
            if is_conflict_error(e.as_str()) {
                Ok(paths_of(&status.conflicts))
            } else {
                Err(e.clone())
            }
        }}
}

} // verus!
