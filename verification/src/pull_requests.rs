//! The pull requests of the GitHub view: their state, and what the result
//! of work done in the background does to it.

use vstd::prelude::*;
use vstd::string::*;
use crate::text::string_of;
use crate::number::{decimal, decimal_chars};
use crate::github::{PullRequest, CheckRunsResponse, PrFile, PrReview, MergeResponse, PrFilter,
    PrDetailTab, MergeMethod, Collaborator};
use crate::device_auth::{GitHubView, GitHubViewModel};

verus! {

/// What the work in the background gave.
#[derive(Debug)]
pub enum PrBgResult {
    /// The list of pull requests.
    PrList(Result<Vec<PullRequest>, String>),
    /// One pull request with its checks, files and reviews.
    PrDetail {
        pr: Result<PullRequest, String>,
        checks: Result<CheckRunsResponse, String>,
        files: Result<Vec<PrFile>, String>,
        reviews: Result<Vec<PrReview>, String>,
    },
    MergeResult(Result<MergeResponse, String>),
    CloseResult(Result<PullRequest, String>),
}

/// The state of the pull requests.
#[derive(Debug, Clone)]
pub struct PullRequestsState {
    pub prs: Vec<PullRequest>,
    pub selected: usize,
    /// The entry that the list marks, if any.
    pub list_selected: Option<usize>,
    pub filter: PrFilter,
    pub loading: bool,
    pub error: Option<String>,
    pub detail_pr: Option<PullRequest>,
    pub detail_checks: Option<CheckRunsResponse>,
    pub detail_files: Vec<PrFile>,
    pub detail_reviews: Vec<PrReview>,
    pub detail_tab: PrDetailTab,
    pub detail_scroll: u16,
    pub files_selected: usize,
    /// The entry that the list of files marks, if any.
    pub files_list_selected: Option<usize>,
    pub merge_method: MergeMethod,
}

/// The mathematical value of a `PullRequestsState`: its lists as
/// sequences, its error as text.
pub struct PullRequestsStateView {
    pub prs: Seq<PullRequest>,
    pub selected: usize,
    pub list_selected: Option<usize>,
    pub filter: PrFilter,
    pub loading: bool,
    pub error: Option<Seq<char>>,
    pub detail_pr: Option<PullRequest>,
    pub detail_checks: Option<CheckRunsResponse>,
    pub detail_files: Seq<PrFile>,
    pub detail_reviews: Seq<PrReview>,
    pub detail_tab: PrDetailTab,
    pub detail_scroll: u16,
    pub files_selected: usize,
    pub files_list_selected: Option<usize>,
    pub merge_method: MergeMethod,
}

impl View for PullRequestsState {
    type V = PullRequestsStateView;

    open spec fn view(&self) -> PullRequestsStateView {
        PullRequestsStateView {
            prs: self.prs@,
            selected: self.selected,
            list_selected: self.list_selected,
            filter: self.filter,
            loading: self.loading,
            error: self.error.deep_view(),
            detail_pr: self.detail_pr,
            detail_checks: self.detail_checks,
            detail_files: self.detail_files@,
            detail_reviews: self.detail_reviews@,
            detail_tab: self.detail_tab,
            detail_scroll: self.detail_scroll,
            files_selected: self.files_selected,
            files_list_selected: self.files_list_selected,
            merge_method: self.merge_method,
        }
    }
}

/// The state before anything was loaded.
pub open spec fn blank_pr_state() -> PullRequestsStateView {
    PullRequestsStateView {
        prs: Seq::empty(),
        selected: 0,
        list_selected: None,
        filter: PrFilter::Open,
        loading: false,
        error: None,
        detail_pr: None,
        detail_checks: None,
        detail_files: Seq::empty(),
        detail_reviews: Seq::empty(),
        detail_tab: PrDetailTab::Overview,
        detail_scroll: 0,
        files_selected: 0,
        files_list_selected: None,
        merge_method: MergeMethod::Merge,
    }
}

/// The mark of a list that was filled anew: on the first entry, or
/// nowhere in an empty list.
pub open spec fn first_entry(len: nat) -> Option<usize> {
    if len == 0 {
        None
    } else {
        Some(0usize)
    }
}

/// The pull request whose detail is shown, if one is.
pub open spec fn shown_detail(view: GitHubViewModel) -> Option<u64> {
    match view {
        GitHubViewModel::PullRequestDetail(n) => Some(n),
        _ => None,
    }
}

/// The state while the detail of a pull request is loaded anew.
pub open spec fn reloading(s: PullRequestsStateView) -> PullRequestsStateView {
    PullRequestsStateView {
        loading: true,
        error: None,
        detail_tab: PrDetailTab::Overview,
        detail_scroll: 0,
        files_selected: 0,
        ..s
    }
}

/// The state while the detail is loaded anew, where one is shown.
pub open spec fn reloading_shown(s: PullRequestsStateView, view: GitHubViewModel)
    -> PullRequestsStateView {
    if shown_detail(view) is Some {
        reloading(s)
    } else {
        s
    }
}

/// The state with the parts of a detail that could be had.
pub open spec fn with_detail(
    s: PullRequestsStateView,
    pr: Result<PullRequest, String>,
    checks: Result<CheckRunsResponse, String>,
    files: Result<Vec<PrFile>, String>,
    reviews: Result<Vec<PrReview>, String>,
) -> PullRequestsStateView {
    PullRequestsStateView {
        detail_pr: match pr {
            Ok(p) => Some(p),
            Err(_) => s.detail_pr,
        },
        error: match pr {
            Ok(_) => None,
            Err(e) => Some(e@),
        },
        detail_checks: match checks {
            Ok(c) => Some(c),
            Err(_) => s.detail_checks,
        },
        detail_files: match files {
            Ok(f) => f@,
            Err(_) => s.detail_files,
        },
        files_list_selected: match files {
            Ok(f) => first_entry(f@.len()),
            Err(_) => s.files_list_selected,
        },
        detail_reviews: match reviews {
            Ok(r) => r@,
            Err(_) => s.detail_reviews,
        },
        ..s
    }
}

/// The state after the result of work in the background: the loading is
/// over; a list or a detail is taken in, an error is kept; after a merge
/// or a close that went well, the detail that is shown is loaded anew.
pub open spec fn pr_state_after(
    old: PullRequestsStateView,
    view: GitHubViewModel,
    result: PrBgResult,
) -> PullRequestsStateView {
    let s = PullRequestsStateView { loading: false, ..old };
    match result {
        PrBgResult::PrList(Ok(prs)) => PullRequestsStateView {
            prs: prs@,
            selected: 0,
            list_selected: first_entry(prs@.len()),
            error: None,
            ..s
        },
        PrBgResult::PrList(Err(e)) => PullRequestsStateView { error: Some(e@), ..s },
        PrBgResult::PrDetail { pr, checks, files, reviews } => with_detail(
            s,
            pr,
            checks,
            files,
            reviews,
        ),
        PrBgResult::MergeResult(Ok(resp)) => if resp.merged {
            reloading_shown(s, view)
        } else {
            PullRequestsStateView { error: Some("Merge failed: "@ + resp.message@), ..s }
        },
        PrBgResult::MergeResult(Err(e)) => PullRequestsStateView {
            error: Some("Merge failed: "@ + e@),
            ..s
        },
        PrBgResult::CloseResult(Ok(_)) => reloading_shown(s, view),
        PrBgResult::CloseResult(Err(e)) => PullRequestsStateView {
            error: Some("Close failed: "@ + e@),
            ..s
        },
    }
}

/// The status line after the result: it tells of a merge or a close that
/// went well, and stays as it is otherwise.
pub open spec fn pr_status_after(status: Option<Seq<char>>, result: PrBgResult) -> Option<
    Seq<char>,
> {
    match result {
        PrBgResult::MergeResult(Ok(resp)) => if resp.merged {
            Some("✓ PR merged! ("@ + resp.sha@ + ")"@)
        } else {
            status
        },
        PrBgResult::CloseResult(Ok(pr)) => Some(
            "✓ PR #"@ + decimal(pr.number as nat) + " closed"@,
        ),
        _ => status,
    }
}

/// The pull request whose detail is to be loaded anew after the result:
/// the one that is shown, after a merge or a close that went well.
pub open spec fn pr_reload_after(view: GitHubViewModel, result: PrBgResult) -> Option<u64> {
    match result {
        PrBgResult::MergeResult(Ok(resp)) => if resp.merged {
            shown_detail(view)
        } else {
            None
        },
        PrBgResult::CloseResult(Ok(_)) => shown_detail(view),
        _ => None,
    }
}

fn detail_of(view: &GitHubView) -> (n: Option<u64>)
    ensures
        n == shown_detail(view@),
{
    match view {
        GitHubView::PullRequestDetail(n) => Some(*n),
        _ => None,
    }
}

fn first_of_list(len: usize) -> (r: Option<usize>)
    ensures
        r == first_entry(len as nat),
{
    if len == 0 {
        None
    } else {
        Some(0)
    }
}

fn prefixed_error(prefix: &str, text: &str) -> (r: Option<String>)
    ensures
        r.deep_view() == Some(prefix@ + text@),
{
    let mut message = String::from_str(prefix);
    message.append(text);
    Some(message)
}

impl PullRequestsState {
    /// The state before anything was loaded.
    pub fn new() -> (s: Self)
        ensures
            s@ == blank_pr_state(),
    {
        PullRequestsState {
            prs: Vec::new(),
            selected: 0,
            list_selected: None,
            filter: PrFilter::Open,
            loading: false,
            error: None,
            detail_pr: None,
            detail_checks: None,
            detail_files: Vec::new(),
            detail_reviews: Vec::new(),
            detail_tab: PrDetailTab::Overview,
            detail_scroll: 0,
            files_selected: 0,
            files_list_selected: None,
            merge_method: MergeMethod::Merge,
        }
    }

    fn start_reload(&mut self, view: &GitHubView) -> (reload: Option<u64>)
        ensures
            final(self)@ == reloading_shown(old(self)@, view@),
            reload == shown_detail(view@),
    {
        let shown = detail_of(view);
        if shown.is_some() {
            self.loading = true;
            self.error = None;
            self.detail_tab = PrDetailTab::Overview;
            self.detail_scroll = 0;
            self.files_selected = 0;
        }
        shown
    }
}

/// Takes in the result of work in the background, if there is one, and
/// tells which pull request's detail is to be loaded anew. Without a
/// result nothing changes.
pub fn tick_pr_state(
    state: &mut PullRequestsState,
    status: &mut Option<String>,
    view: &GitHubView,
    result: Option<PrBgResult>,
) -> (reload: Option<u64>)
    ensures
        final(state)@ == match result {
            Some(r) => pr_state_after(old(state)@, view@, r),
            None => old(state)@,
        },
        final(status).deep_view() == match result {
            Some(r) => pr_status_after(old(status).deep_view(), r),
            None => old(status).deep_view(),
        },
        reload == match result {
            Some(r) => pr_reload_after(view@, r),
            None => None,
        },
{
    let result = match result {
        Some(r) => r,
        None => {
            return None;
        },
    };
    state.loading = false;
    match result {
        PrBgResult::PrList(Ok(prs)) => {
            state.list_selected = first_of_list(prs.len());
            state.prs = prs;
            state.selected = 0;
            state.error = None;
            None
        },
        PrBgResult::PrList(Err(e)) => {
            state.error = Some(e);
            None
        },
        PrBgResult::PrDetail { pr, checks, files, reviews } => {
            match pr {
                Ok(p) => {
                    state.detail_pr = Some(p);
                    state.error = None;
                },
                Err(e) => {
                    state.error = Some(e);
                },
            }
            match checks {
                Ok(c) => {
                    state.detail_checks = Some(c);
                },
                Err(_) => {},
            }
            match files {
                Ok(f) => {
                    state.files_list_selected = first_of_list(f.len());
                    state.detail_files = f;
                },
                Err(_) => {},
            }
            match reviews {
                Ok(r) => {
                    state.detail_reviews = r;
                },
                Err(_) => {},
            }
            None
        },
        PrBgResult::MergeResult(Ok(resp)) => {
            if resp.merged {
                let mut message = String::from_str("✓ PR merged! (");
                message.append(resp.sha.as_str());
                message.append(")");
                *status = Some(message);
                state.start_reload(view)
            } else {
                state.error = prefixed_error("Merge failed: ", resp.message.as_str());
                None
            }
        },
        PrBgResult::MergeResult(Err(e)) => {
            state.error = prefixed_error("Merge failed: ", e.as_str());
            None
        },
        PrBgResult::CloseResult(Ok(pr)) => {
            let mut message = String::from_str("✓ PR #");
            message.append(string_of(&decimal_chars(pr.number)).as_str());
            message.append(" closed");
            *status = Some(message);
            state.start_reload(view)
        },
        PrBgResult::CloseResult(Err(e)) => {
            state.error = prefixed_error("Close failed: ", e.as_str());
            None
        },
    }
}

// ---------------------------------------------------------------------------
// Collaborators
// ---------------------------------------------------------------------------

/// The state of the list of collaborators.
#[derive(Debug, Clone)]
pub struct CollaboratorsState {
    pub collaborators: Vec<Collaborator>,
    pub collab_selected: usize,
    /// The entry that the list marks, if any.
    pub collab_list_selected: Option<usize>,
    pub collab_error: Option<String>,
}

/// The mathematical value of a `CollaboratorsState`.
pub struct CollaboratorsStateView {
    pub collaborators: Seq<Collaborator>,
    pub collab_selected: usize,
    pub collab_list_selected: Option<usize>,
    pub collab_error: Option<Seq<char>>,
}

impl View for CollaboratorsState {
    type V = CollaboratorsStateView;

    open spec fn view(&self) -> CollaboratorsStateView {
        CollaboratorsStateView {
            collaborators: self.collaborators@,
            collab_selected: self.collab_selected,
            collab_list_selected: self.collab_list_selected,
            collab_error: self.collab_error.deep_view(),
        }
    }
}

/// The state once the collaborators were asked for: the list as it came,
/// with the mark on its first entry; or the error and an empty list.
/// Without a token nothing is asked and nothing changes.
pub open spec fn collaborators_after(
    s: CollaboratorsStateView,
    answer: Option<Result<Vec<Collaborator>, String>>,
) -> CollaboratorsStateView {
    match answer {
        None => s,
        Some(Ok(list)) => CollaboratorsStateView {
            collaborators: list@,
            collab_selected: 0,
            collab_list_selected: first_entry(list@.len()),
            collab_error: None,
        },
        Some(Err(e)) => CollaboratorsStateView {
            collaborators: Seq::empty(),
            collab_error: Some("Error: "@ + e@),
            ..s
        },
    }
}

/// Takes in the answer to the request for the collaborators; `answer` is
/// nothing where there is no token to ask with.
pub fn load_collaborators(
    state: &mut CollaboratorsState,
    answer: Option<Result<Vec<Collaborator>, String>>,
)
    ensures
        final(state)@ == collaborators_after(old(state)@, answer),
{
    match answer {
        None => {},
        Some(Ok(list)) => {
            state.collab_list_selected = first_of_list(list.len());
            state.collaborators = list;
            state.collab_selected = 0;
            state.collab_error = None;
        },
        Some(Err(e)) => {
            state.collab_error = prefixed_error("Error: ", e.as_str());
            state.collaborators = Vec::new();
        },
    }
}

} // verus!
