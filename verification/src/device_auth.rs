//! Logging in to GitHub by the device flow: when to ask again, and what
//! an answer does to the view.

use vstd::prelude::*;
use vstd::string::*;
use crate::config::GithubConfig;
use crate::github::{DeviceCodeResponse, PollResult, PollResultView};

verus! {

/// The state of a login that waits for the user's consent.
#[derive(Debug, Clone, PartialEq)]
pub struct DeviceAuthState {
    /// The code that the user types in.
    pub user_code: String,
    /// The code that this program asks with.
    pub device_code: String,
    pub verification_uri: String,
    /// The seconds to wait between two requests.
    pub interval: u64,
    pub ticks_since_poll: u64,
    pub status: String,
}

/// What the GitHub view shows.
#[derive(Debug, Clone, PartialEq)]
pub enum GitHubView {
    Menu,
    DeviceAuth(DeviceAuthState),
    CreateRepo,
    Collaborators,
    PullRequests,
    PullRequestDetail(u64),
}

/// The mathematical value of a `DeviceAuthState`.
pub struct DeviceAuthStateView {
    pub user_code: Seq<char>,
    pub device_code: Seq<char>,
    pub verification_uri: Seq<char>,
    pub interval: u64,
    pub ticks_since_poll: u64,
    pub status: Seq<char>,
}

/// The mathematical value of a `GitHubView`.
pub enum GitHubViewModel {
    Menu,
    DeviceAuth(DeviceAuthStateView),
    CreateRepo,
    Collaborators,
    PullRequests,
    PullRequestDetail(u64),
}

impl View for DeviceAuthState {
    type V = DeviceAuthStateView;

    open spec fn view(&self) -> DeviceAuthStateView {
        DeviceAuthStateView {
            user_code: self.user_code@,
            device_code: self.device_code@,
            verification_uri: self.verification_uri@,
            interval: self.interval,
            ticks_since_poll: self.ticks_since_poll,
            status: self.status@,
        }
    }
}

impl View for GitHubView {
    type V = GitHubViewModel;

    open spec fn view(&self) -> GitHubViewModel {
        match self {
            GitHubView::Menu => GitHubViewModel::Menu,
            GitHubView::DeviceAuth(a) => GitHubViewModel::DeviceAuth(a@),
            GitHubView::CreateRepo => GitHubViewModel::CreateRepo,
            GitHubView::Collaborators => GitHubViewModel::Collaborators,
            GitHubView::PullRequests => GitHubViewModel::PullRequests,
            GitHubView::PullRequestDetail(n) => GitHubViewModel::PullRequestDetail(*n),
        }
    }
}

// ---------------------------------------------------------------------------
// Starting
// ---------------------------------------------------------------------------

/// The view and the status line once the device code was asked for: with
/// the code, the login waits; without it, the view stays and the status
/// line tells why.
pub open spec fn started(
    view: GitHubViewModel,
    status: Option<Seq<char>>,
    user_code: Seq<char>,
    device_code: Seq<char>,
    verification_uri: Seq<char>,
    interval: u64,
    failure: Option<Seq<char>>,
) -> (GitHubViewModel, Option<Seq<char>>) {
    match failure {
        None => (
            GitHubViewModel::DeviceAuth(
                DeviceAuthStateView {
                    user_code,
                    device_code,
                    verification_uri,
                    interval,
                    ticks_since_poll: 0,
                    status: "Waiting for you to authorize in browser..."@,
                },
            ),
            status,
        ),
        Some(e) => (view, Some("Auth failed: "@ + e)),
    }
}

/// Takes in the answer to the request for a device code.
pub fn start_device_flow(
    view: &mut GitHubView,
    status: &mut Option<String>,
    response: Result<DeviceCodeResponse, String>,
)
    ensures
        (final(view)@, final(status).deep_view()) == (match response {
            Ok(r) => started(
                old(view)@,
                old(status).deep_view(),
                r.user_code@,
                r.device_code@,
                r.verification_uri@,
                r.interval,
                None,
            ),
            Err(e) => started(
                old(view)@,
                old(status).deep_view(),
                Seq::empty(),
                Seq::empty(),
                Seq::empty(),
                0,
                Some(e@),
            ),
        }),
{
    match response {
        Ok(r) => {
            *view = GitHubView::DeviceAuth(
                DeviceAuthState {
                    user_code: r.user_code,
                    device_code: r.device_code,
                    verification_uri: r.verification_uri,
                    interval: r.interval,
                    ticks_since_poll: 0,
                    status: String::from_str("Waiting for you to authorize in browser..."),
                },
            );
        },
        Err(e) => {
            let mut message = String::from_str("Auth failed: ");
            message.append(e.as_str());
            *status = Some(message);
        },
    }
}

// ---------------------------------------------------------------------------
// Pacing
// ---------------------------------------------------------------------------

/// The number of ticks between two requests: as many as fill the
/// interval, and at least one.
pub open spec fn ticks_needed(interval: u64, tick_rate_ms: u64) -> int
    recommends
        tick_rate_ms > 0,
{
    let ticks = (interval * 1000) / (tick_rate_ms as int);
    if ticks < 1 {
        1
    } else {
        ticks
    }
}

/// Counts one tick and tells whether it is time to ask again; the count
/// starts anew when it is.
pub fn poll_due(auth: &mut DeviceAuthState, tick_rate_ms: u64) -> (due: bool)
    requires
        tick_rate_ms > 0,
        old(auth).interval * 1000 <= u64::MAX,
        old(auth).ticks_since_poll < u64::MAX,
    ensures
        due == (old(auth).ticks_since_poll + 1 >= ticks_needed(old(auth).interval, tick_rate_ms)),
        final(auth)@ == (DeviceAuthStateView {
            ticks_since_poll: if due {
                0
            } else {
                (old(auth).ticks_since_poll + 1) as u64
            },
            ..old(auth)@
        }),
{
    auth.ticks_since_poll += 1;
    let ticks = (auth.interval * 1000) / tick_rate_ms;
    let needed = if ticks < 1 {
        1
    } else {
        ticks
    };
    if auth.ticks_since_poll < needed {
        false
    } else {
        auth.ticks_since_poll = 0;
        true
    }
}

/// Counts one tick where the numbers allow; see `poll_due`. Where they do
/// not (a tick rate of 0, an interval or a count at the end of its type),
/// nothing changes and it is not time to ask.
pub fn poll_due_checked(auth: &mut DeviceAuthState, tick_rate_ms: u64) -> (due: bool)
    ensures
        tick_rate_ms > 0 && old(auth).interval * 1000 <= u64::MAX && old(auth).ticks_since_poll
            < u64::MAX ==> due == (old(auth).ticks_since_poll + 1 >= ticks_needed(
            old(auth).interval,
            tick_rate_ms,
        )) && final(auth)@ == (DeviceAuthStateView {
            ticks_since_poll: if due {
                0
            } else {
                (old(auth).ticks_since_poll + 1) as u64
            },
            ..old(auth)@
        }),
        !(tick_rate_ms > 0 && old(auth).interval * 1000 <= u64::MAX && old(auth).ticks_since_poll
            < u64::MAX) ==> !due && final(auth)@ == old(auth)@,
{
    if tick_rate_ms > 0 && auth.interval <= u64::MAX / 1000 && auth.ticks_since_poll < u64::MAX {
        poll_due(auth, tick_rate_ms)
    } else {
        false
    }
}

// ---------------------------------------------------------------------------
// The answer
// ---------------------------------------------------------------------------

/// The view shows a login that waits.
pub open spec fn waits(view: GitHubViewModel) -> bool {
    view is DeviceAuth
}

/// The waiting login with another status line.
pub open spec fn with_status(view: GitHubViewModel, status: Seq<char>) -> GitHubViewModel {
    match view {
        GitHubViewModel::DeviceAuth(a) => GitHubViewModel::DeviceAuth(
            DeviceAuthStateView { status, ..a },
        ),
        _ => view,
    }
}

/// The waiting login with another interval and another status line.
pub open spec fn slowed_down(view: GitHubViewModel, interval: u64) -> GitHubViewModel {
    match view {
        GitHubViewModel::DeviceAuth(a) => GitHubViewModel::DeviceAuth(
            DeviceAuthStateView { interval, status: "Slowing down polling rate..."@, ..a },
        ),
        _ => view,
    }
}

/// The status line of a login that went well.
pub open spec fn welcome(username: Option<Seq<char>>) -> Seq<char> {
    match username {
        Some(user) => "✓ Authenticated as @"@ + user,
        None => "✓ Authenticated with GitHub"@,
    }
}

/// The view and the status line after an answer. Only a login that waits
/// takes an answer in: while the user has not confirmed, it waits on,
/// more slowly where GitHub asks for it; success, expiry and refusal lead
/// back to the menu.
pub open spec fn after_answer(
    view: GitHubViewModel,
    status: Option<Seq<char>>,
    result: PollResultView,
    username: Option<Seq<char>>,
) -> (GitHubViewModel, Option<Seq<char>>) {
    if !waits(view) {
        (view, status)
    } else {
        match result {
            PollResultView::Pending => (
                with_status(view, "Waiting for you to authorize in browser..."@),
                status,
            ),
            PollResultView::Success(_) => (GitHubViewModel::Menu, Some(welcome(username))),
            PollResultView::SlowDown(interval) => (slowed_down(view, interval), status),
            PollResultView::Expired => (
                GitHubViewModel::Menu,
                Some("Code expired. Please try again."@),
            ),
            PollResultView::AccessDenied => (
                GitHubViewModel::Menu,
                Some("Access denied. Please try again."@),
            ),
            PollResultView::Error(e) => (with_status(view, "Error: "@ + e), status),
        }
    }
}

/// The OAuth token of the configuration after an answer: the new token,
/// where a login that waited went well and the keychain did not take it.
pub open spec fn token_after_answer(
    view: GitHubViewModel,
    token: Option<Seq<char>>,
    result: PollResultView,
    token_stored: bool,
) -> Option<Seq<char>> {
    match result {
        PollResultView::Success(t) => if !waits(view) || token_stored {
            token
        } else {
            Some(t.access_token)
        },
        _ => token,
    }
}

/// The user name of the configuration after an answer: the one that was
/// fetched, where a login that waited went well.
pub open spec fn username_after_answer(
    view: GitHubViewModel,
    name: Option<Seq<char>>,
    result: PollResultView,
    username: Option<Seq<char>>,
) -> Option<Seq<char>> {
    match result {
        PollResultView::Success(_) => if waits(view) {
            username
        } else {
            name
        },
        _ => name,
    }
}

fn set_status(view: &mut GitHubView, text: String)
    ensures
        final(view)@ == with_status(old(view)@, text@),
{
    match view {
        GitHubView::DeviceAuth(a) => {
            a.status = text;
        },
        _ => {},
    }
}

fn slow_down(view: &mut GitHubView, interval: u64)
    ensures
        final(view)@ == slowed_down(old(view)@, interval),
{
    match view {
        GitHubView::DeviceAuth(a) => {
            a.interval = interval;
            a.status = String::from_str("Slowing down polling rate...");
        },
        _ => {},
    }
}

fn is_waiting(view: &GitHubView) -> (b: bool)
    ensures
        b == waits(view@),
{
    match view {
        GitHubView::DeviceAuth(_) => true,
        _ => false,
    }
}

/// Takes in the answer to a request for the token. Where the login went
/// well, `username` is the user name that was fetched with the token, if
/// any, and `token_stored` tells whether the keychain has taken the token;
/// the configuration is to be saved afterwards.
pub fn tick_device_auth(
    view: &mut GitHubView,
    status: &mut Option<String>,
    config: &mut GithubConfig,
    result: PollResult,
    username: Option<String>,
    token_stored: bool,
)
    ensures
        (final(view)@, final(status).deep_view()) == after_answer(
            old(view)@,
            old(status).deep_view(),
            result@,
            username.deep_view(),
        ),
        final(config).oauth_token.deep_view() == token_after_answer(
            old(view)@,
            old(config).oauth_token.deep_view(),
            result@,
            token_stored,
        ),
        final(config).username.deep_view() == username_after_answer(
            old(view)@,
            old(config).username.deep_view(),
            result@,
            username.deep_view(),
        ),
        final(config).pat == old(config).pat,
{
    if !is_waiting(view) {
        return ;
    }
    match result {
        PollResult::Pending => {
            set_status(view, String::from_str("Waiting for you to authorize in browser..."));
        },
        PollResult::Success(token) => {
            if !token_stored {
                config.oauth_token = Some(token.access_token);
            }
            let message = match &username {
                Some(user) => {
                    let mut m = String::from_str("✓ Authenticated as @");
                    m.append(user.as_str());
                    m
                },
                None => String::from_str("✓ Authenticated with GitHub"),
            };
            config.username = username;
            *view = GitHubView::Menu;
            *status = Some(message);
        },
        PollResult::SlowDown(interval) => {
            slow_down(view, interval);
        },
        PollResult::Expired => {
            *view = GitHubView::Menu;
            *status = Some(String::from_str("Code expired. Please try again."));
        },
        PollResult::AccessDenied => {
            *view = GitHubView::Menu;
            *status = Some(String::from_str("Access denied. Please try again."));
        },
        PollResult::Error(e) => {
            let mut message = String::from_str("Error: ");
            message.append(e.as_str());
            set_status(view, message);
        },
    }
}

} // verus!
