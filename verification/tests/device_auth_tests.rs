use zit::config::GithubConfig;
use zit::device_auth::{poll_due, poll_due_checked, start_device_flow, tick_device_auth,
    DeviceAuthState, GitHubView};
use zit::github::{DeviceCodeResponse, PollResult, TokenResponse};

fn waiting(interval: u64, ticks_since_poll: u64) -> DeviceAuthState {
    DeviceAuthState {
        user_code: "ABCD-1234".to_string(),
        device_code: "dev".to_string(),
        verification_uri: "https://github.com/login/device".to_string(),
        interval,
        ticks_since_poll,
        status: "Waiting for you to authorize in browser...".to_string(),
    }
}

fn config() -> GithubConfig {
    GithubConfig { pat: Some("pat".to_string()), oauth_token: None, username: None }
}

fn token() -> PollResult {
    PollResult::Success(TokenResponse {
        access_token: "gho_x".to_string(),
        token_type: "bearer".to_string(),
        scope: "repo".to_string(),
    })
}

#[test]
fn device_flow_starts_with_the_code_or_tells_why_not() {
    let mut view = GitHubView::Menu;
    let mut status = None;
    let response = DeviceCodeResponse {
        device_code: "dev".to_string(),
        user_code: "ABCD-1234".to_string(),
        verification_uri: "https://github.com/login/device".to_string(),
        expires_in: 900,
        interval: 5,
    };
    start_device_flow(&mut view, &mut status, Ok(response));
    assert_eq!(view, GitHubView::DeviceAuth(waiting(5, 0)));
    assert_eq!(status, None);
    let mut view = GitHubView::Menu;
    start_device_flow(&mut view, &mut status, Err("no network".to_string()));
    assert_eq!(view, GitHubView::Menu);
    assert_eq!(status, Some("Auth failed: no network".to_string()));
}

#[test]
fn requests_are_paced_by_the_interval() {
    let mut auth = waiting(5, 0);
    assert!(!poll_due(&mut auth, 2000));
    assert_eq!(auth.ticks_since_poll, 1);
    assert!(poll_due(&mut auth, 2000));
    assert_eq!(auth.ticks_since_poll, 0);
    let mut auth = waiting(1, 0);
    assert!(poll_due(&mut auth, 2000));
    let mut auth = waiting(10, 3);
    assert!(!poll_due(&mut auth, 2000));
    assert!(poll_due(&mut auth, 2000));
    assert_eq!(auth, waiting(10, 0));
}

#[test]
fn pacing_with_numbers_out_of_range_changes_nothing() {
    let mut auth = waiting(5, 7);
    assert!(!poll_due_checked(&mut auth, 0));
    assert_eq!(auth, waiting(5, 7));
    let mut auth = waiting(u64::MAX, 7);
    assert!(!poll_due_checked(&mut auth, 2000));
    assert_eq!(auth, waiting(u64::MAX, 7));
    let mut auth = waiting(5, u64::MAX);
    assert!(!poll_due_checked(&mut auth, 2000));
    let mut auth = waiting(5, 1);
    assert!(poll_due_checked(&mut auth, 2000));
    assert_eq!(auth, waiting(5, 0));
}

#[test]
fn answers_move_the_waiting_login() {
    let mut status = None;
    let mut cfg = config();

    let mut view = GitHubView::DeviceAuth(waiting(5, 0));
    tick_device_auth(&mut view, &mut status, &mut cfg, PollResult::SlowDown(10), None, false);
    let mut slowed = waiting(10, 0);
    slowed.status = "Slowing down polling rate...".to_string();
    assert_eq!(view, GitHubView::DeviceAuth(slowed));

    tick_device_auth(&mut view, &mut status, &mut cfg, PollResult::Pending, None, false);
    assert_eq!(view, GitHubView::DeviceAuth(waiting(10, 0)));

    tick_device_auth(&mut view, &mut status, &mut cfg, PollResult::Error("boom".to_string()), None, false);
    let mut failed = waiting(10, 0);
    failed.status = "Error: boom".to_string();
    assert_eq!(view, GitHubView::DeviceAuth(failed));
    assert_eq!(status, None);

    tick_device_auth(&mut view, &mut status, &mut cfg, PollResult::Expired, None, false);
    assert_eq!(view, GitHubView::Menu);
    assert_eq!(status, Some("Code expired. Please try again.".to_string()));

    let mut view = GitHubView::DeviceAuth(waiting(5, 0));
    tick_device_auth(&mut view, &mut status, &mut cfg, PollResult::AccessDenied, None, false);
    assert_eq!(view, GitHubView::Menu);
    assert_eq!(status, Some("Access denied. Please try again.".to_string()));
    assert_eq!((cfg.oauth_token.clone(), cfg.username.clone()), (None, None));
}

#[test]
fn success_keeps_the_token_where_the_keychain_does_not() {
    let mut status = None;
    let mut cfg = config();
    let mut view = GitHubView::DeviceAuth(waiting(5, 0));
    tick_device_auth(&mut view, &mut status, &mut cfg, token(), Some("jane".to_string()), false);
    assert_eq!(view, GitHubView::Menu);
    assert_eq!(status, Some("✓ Authenticated as @jane".to_string()));
    assert_eq!(cfg.oauth_token, Some("gho_x".to_string()));
    assert_eq!(cfg.username, Some("jane".to_string()));
    assert_eq!(cfg.pat, Some("pat".to_string()));

    let mut cfg = config();
    let mut view = GitHubView::DeviceAuth(waiting(5, 0));
    tick_device_auth(&mut view, &mut status, &mut cfg, token(), None, true);
    assert_eq!(status, Some("✓ Authenticated with GitHub".to_string()));
    assert_eq!((cfg.oauth_token, cfg.username), (None, None));
}

#[test]
fn answers_outside_a_login_change_nothing() {
    let mut status = Some("kept".to_string());
    let mut cfg = config();
    for make in [|| token(), || PollResult::Expired, || PollResult::Pending, || PollResult::SlowDown(9)] {
        let mut view = GitHubView::PullRequestDetail(7);
        tick_device_auth(&mut view, &mut status, &mut cfg, make(), Some("jane".to_string()), false);
        assert_eq!(view, GitHubView::PullRequestDetail(7));
        assert_eq!(status, Some("kept".to_string()));
        assert_eq!((cfg.oauth_token.clone(), cfg.username.clone()), (None, None));
    }
}
