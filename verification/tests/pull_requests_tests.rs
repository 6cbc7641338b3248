use zit::device_auth::GitHubView;
use zit::github::{CheckRun, CheckRunsResponse, GhUser, MergeMethod, MergeResponse, PrBranch,
    PrDetailTab, PrFile, PrFilter, PrReview, PullRequest};
use zit::github::Collaborator;
use zit::pull_requests::{load_collaborators, tick_pr_state, CollaboratorsState, PrBgResult,
    PullRequestsState};

fn branch(name: &str) -> PrBranch {
    PrBranch { label: name.to_string(), ref_name: name.to_string(), sha: "abc".to_string() }
}

fn pr(number: u64) -> PullRequest {
    PullRequest {
        number,
        title: format!("PR {}", number),
        state: "open".to_string(),
        body: None,
        html_url: String::new(),
        created_at: String::new(),
        updated_at: String::new(),
        merged_at: None,
        draft: false,
        mergeable: Some(true),
        mergeable_state: None,
        head: branch("feature"),
        base: branch("main"),
        user: GhUser { login: "jane".to_string() },
        labels: vec![],
        requested_reviewers: vec![],
    }
}

fn file(name: &str) -> PrFile {
    PrFile { filename: name.to_string(), status: "modified".to_string(), additions: 1, deletions: 0, changes: 1, patch: None }
}

fn busy() -> PullRequestsState {
    let mut s = PullRequestsState::new();
    s.loading = true;
    s.selected = 4;
    s.list_selected = Some(4);
    s.detail_tab = PrDetailTab::Files;
    s.detail_scroll = 6;
    s.files_selected = 2;
    s.error = Some("old".to_string());
    s.merge_method = MergeMethod::Squash;
    s
}

#[test]
fn new_state_is_blank() {
    let s = PullRequestsState::new();
    assert!(s.prs.is_empty() && !s.loading && s.error.is_none() && s.detail_pr.is_none());
    assert_eq!((s.filter, s.detail_tab, s.merge_method), (PrFilter::Open, PrDetailTab::Overview, MergeMethod::Merge));
    assert_eq!((s.selected, s.list_selected, s.files_list_selected), (0, None, None));
}

#[test]
fn without_a_result_nothing_changes() {
    let mut s = busy();
    let mut status = Some("kept".to_string());
    assert_eq!(tick_pr_state(&mut s, &mut status, &GitHubView::PullRequests, None), None);
    assert!(s.loading);
    assert_eq!(s.error, Some("old".to_string()));
    assert_eq!(status, Some("kept".to_string()));
}

#[test]
fn list_is_taken_in_or_its_error_kept() {
    let mut s = busy();
    let mut status = None;
    let list = PrBgResult::PrList(Ok(vec![pr(1), pr(2)]));
    assert_eq!(tick_pr_state(&mut s, &mut status, &GitHubView::PullRequests, Some(list)), None);
    assert!(!s.loading);
    assert_eq!(s.prs.len(), 2);
    assert_eq!((s.selected, s.list_selected), (0, Some(0)));
    assert!(s.error.is_none());
    assert_eq!(s.merge_method, MergeMethod::Squash);

    tick_pr_state(&mut s, &mut status, &GitHubView::PullRequests, Some(PrBgResult::PrList(Ok(vec![]))));
    assert_eq!((s.prs.len(), s.list_selected), (0, None));

    s.loading = true;
    tick_pr_state(&mut s, &mut status, &GitHubView::PullRequests, Some(PrBgResult::PrList(Err("401".to_string()))));
    assert_eq!(s.error, Some("401".to_string()));
    assert!(!s.loading);
    assert_eq!(status, None);
}

#[test]
fn detail_takes_in_what_could_be_had() {
    let mut s = busy();
    let mut status = None;
    let detail = PrBgResult::PrDetail {
        pr: Ok(pr(7)),
        checks: Err("no checks".to_string()),
        files: Ok(vec![file("a.rs"), file("b.rs")]),
        reviews: Ok(vec![PrReview { user: GhUser { login: "joe".to_string() }, state: "APPROVED".to_string(), body: None, submitted_at: None }]),
    };
    assert_eq!(tick_pr_state(&mut s, &mut status, &GitHubView::PullRequestDetail(7), Some(detail)), None);
    assert_eq!(s.detail_pr.as_ref().unwrap().number, 7);
    assert!(s.error.is_none() && s.detail_checks.is_none() && !s.loading);
    assert_eq!((s.detail_files.len(), s.files_list_selected, s.detail_reviews.len()), (2, Some(0), 1));
    assert_eq!((s.detail_tab, s.detail_scroll, s.files_selected), (PrDetailTab::Files, 6, 2));

    let detail = PrBgResult::PrDetail {
        pr: Err("gone".to_string()),
        checks: Ok(CheckRunsResponse { total_count: 1, check_runs: vec![CheckRun { name: "ci".to_string(), status: "completed".to_string(), conclusion: None, html_url: String::new() }] }),
        files: Err("x".to_string()),
        reviews: Err("y".to_string()),
    };
    tick_pr_state(&mut s, &mut status, &GitHubView::PullRequestDetail(7), Some(detail));
    assert_eq!(s.error, Some("gone".to_string()));
    assert_eq!(s.detail_pr.as_ref().unwrap().number, 7);
    assert_eq!(s.detail_checks.as_ref().unwrap().total_count, 1);
    assert_eq!((s.detail_files.len(), s.detail_reviews.len()), (2, 1));
}

#[test]
fn merge_and_close_load_the_shown_detail_anew() {
    let mut s = busy();
    let mut status = None;
    let merged = PrBgResult::MergeResult(Ok(MergeResponse { sha: "abc123".to_string(), merged: true, message: "ok".to_string() }));
    assert_eq!(tick_pr_state(&mut s, &mut status, &GitHubView::PullRequestDetail(7), Some(merged)), Some(7));
    assert_eq!(status, Some("✓ PR merged! (abc123)".to_string()));
    assert!(s.loading && s.error.is_none());
    assert_eq!((s.detail_tab, s.detail_scroll, s.files_selected), (PrDetailTab::Overview, 0, 0));

    let mut s = busy();
    let merged = PrBgResult::MergeResult(Ok(MergeResponse { sha: "abc123".to_string(), merged: true, message: "ok".to_string() }));
    assert_eq!(tick_pr_state(&mut s, &mut status, &GitHubView::PullRequests, Some(merged)), None);
    assert!(!s.loading);
    assert_eq!(s.error, Some("old".to_string()));
    assert_eq!(s.detail_tab, PrDetailTab::Files);

    let mut s = busy();
    let closed = PrBgResult::CloseResult(Ok(pr(12)));
    assert_eq!(tick_pr_state(&mut s, &mut status, &GitHubView::PullRequestDetail(12), Some(closed)), Some(12));
    assert_eq!(status, Some("✓ PR #12 closed".to_string()));
    assert!(s.loading);
}

#[test]
fn merge_and_close_that_failed_leave_an_error() {
    let mut s = busy();
    let mut status = Some("kept".to_string());
    let view = GitHubView::PullRequestDetail(7);
    let refused = PrBgResult::MergeResult(Ok(MergeResponse { sha: String::new(), merged: false, message: "not mergeable".to_string() }));
    assert_eq!(tick_pr_state(&mut s, &mut status, &view, Some(refused)), None);
    assert_eq!(s.error, Some("Merge failed: not mergeable".to_string()));
    tick_pr_state(&mut s, &mut status, &view, Some(PrBgResult::MergeResult(Err("405".to_string()))));
    assert_eq!(s.error, Some("Merge failed: 405".to_string()));
    tick_pr_state(&mut s, &mut status, &view, Some(PrBgResult::CloseResult(Err("404".to_string()))));
    assert_eq!(s.error, Some("Close failed: 404".to_string()));
    assert_eq!(status, Some("kept".to_string()));
    assert!(!s.loading);
}

#[test]
fn collaborators_are_taken_in_or_the_error_shown() {
    let mut s = CollaboratorsState {
        collaborators: vec![Collaborator { login: "old".to_string(), role: "admin".to_string() }],
        collab_selected: 3,
        collab_list_selected: Some(3),
        collab_error: Some("stale".to_string()),
    };
    load_collaborators(&mut s, None);
    assert_eq!((s.collaborators.len(), s.collab_selected), (1, 3));
    assert_eq!(s.collab_error, Some("stale".to_string()));

    let list = vec![
        Collaborator { login: "jane".to_string(), role: "admin".to_string() },
        Collaborator { login: "joe".to_string(), role: "write".to_string() },
    ];
    load_collaborators(&mut s, Some(Ok(list)));
    assert_eq!(s.collaborators.len(), 2);
    assert_eq!(s.collaborators[1].login, "joe");
    assert_eq!((s.collab_selected, s.collab_list_selected), (0, Some(0)));
    assert!(s.collab_error.is_none());

    s.collab_selected = 1;
    s.collab_list_selected = Some(1);
    load_collaborators(&mut s, Some(Err("403".to_string())));
    assert!(s.collaborators.is_empty());
    assert_eq!(s.collab_error, Some("Error: 403".to_string()));
    assert_eq!((s.collab_selected, s.collab_list_selected), (1, Some(1)));

    load_collaborators(&mut s, Some(Ok(vec![])));
    assert_eq!(s.collab_list_selected, None);
}
