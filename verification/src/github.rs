//! GitHub: the values of its API, the repository that a remote URL names,
//! and the meaning of an answer while the device flow waits for its token.

use vstd::prelude::*;
use vstd::string::*;
use crate::text::{chars_of, string_of, subvec, rows, is_literal};
use crate::search::{starts_with, has_prefix, find_str, find_sub, contains_str, contains_lit};
use crate::split::{splitn, split_fields, trim, trimmed, trim_end_str, trimmed_end_str};

verus! {

/// The answer to the request for a device code.
#[derive(Debug)]
pub struct DeviceCodeResponse {
    pub device_code: String,
    pub user_code: String,
    pub verification_uri: String,
    pub expires_in: u64,
    pub interval: u64,
}

/// The answer that holds the token.
#[derive(Debug)]
pub struct TokenResponse {
    pub access_token: String,
    pub token_type: String,
    pub scope: String,
}

/// The answer that holds an error.
#[derive(Debug)]
pub struct ErrorResponse {
    pub error: String,
    pub error_description: String,
    pub interval: Option<u64>,
}

/// What an answer means while the device flow waits for its token.
#[derive(Debug)]
pub enum PollResult {
    /// The user has not confirmed yet.
    Pending,
    /// The token is there.
    Success(TokenResponse),
    /// Ask less often: wait so many seconds between two requests.
    SlowDown(u64),
    /// The device code has expired.
    Expired,
    /// The user has refused.
    AccessDenied,
    Error(String),
}

/// Someone who works on a repository.
#[derive(Debug, Clone)]
pub struct Collaborator {
    pub login: String,
    pub role: String,
}

/// A branch of a pull request.
#[derive(Debug, Clone)]
pub struct PrBranch {
    pub label: String,
    pub ref_name: String,
    pub sha: String,
}

/// A user of GitHub.
#[derive(Debug, Clone)]
pub struct GhUser {
    pub login: String,
}

/// A label of a pull request.
#[derive(Debug, Clone)]
pub struct GhLabel {
    pub name: String,
    pub color: String,
}

/// A pull request.
#[derive(Debug, Clone)]
pub struct PullRequest {
    pub number: u64,
    pub title: String,
    pub state: String,
    pub body: Option<String>,
    pub html_url: String,
    pub created_at: String,
    pub updated_at: String,
    pub merged_at: Option<String>,
    pub draft: bool,
    pub mergeable: Option<bool>,
    pub mergeable_state: Option<String>,
    pub head: PrBranch,
    pub base: PrBranch,
    pub user: GhUser,
    pub labels: Vec<GhLabel>,
    pub requested_reviewers: Vec<GhUser>,
}

/// One check of a commit.
#[derive(Debug, Clone)]
pub struct CheckRun {
    pub name: String,
    pub status: String,
    pub conclusion: Option<String>,
    pub html_url: String,
}

/// The checks of a commit.
#[derive(Debug, Clone)]
pub struct CheckRunsResponse {
    pub total_count: u64,
    pub check_runs: Vec<CheckRun>,
}

/// A file that a pull request changes.
#[derive(Debug, Clone)]
pub struct PrFile {
    pub filename: String,
    pub status: String,
    pub additions: u64,
    pub deletions: u64,
    pub changes: u64,
    pub patch: Option<String>,
}

/// A review of a pull request.
#[derive(Debug, Clone)]
pub struct PrReview {
    pub user: GhUser,
    pub state: String,
    pub body: Option<String>,
    pub submitted_at: Option<String>,
}

/// The answer to a merge.
#[derive(Debug, Clone)]
pub struct MergeResponse {
    pub sha: String,
    pub merged: bool,
    pub message: String,
}

// ---------------------------------------------------------------------------
// The repository of a remote URL
// ---------------------------------------------------------------------------

/// Why a remote URL names no repository of GitHub.
#[derive(Debug, Clone, PartialEq, Eq)]
pub enum RemoteUrlError {
    /// The URL names GitHub, but nothing follows `github.com/`.
    Unparsable,
    /// The URL, held here, is not one of GitHub.
    NotGithub(String),
}

/// The mathematical value of a `RemoteUrlError`.
pub enum RemoteUrlErrorView {
    Unparsable,
    NotGithub(Seq<char>),
}

impl View for RemoteUrlError {
    type V = RemoteUrlErrorView;

    open spec fn view(&self) -> RemoteUrlErrorView {
        match self {
            RemoteUrlError::Unparsable => RemoteUrlErrorView::Unparsable,
            RemoteUrlError::NotGithub(url) => RemoteUrlErrorView::NotGithub(url@),
        }
    }
}

impl RemoteUrlError {
    /// The error in words.
    pub fn message(&self) -> (s: String)
        ensures
            s@ == match self@ {
                RemoteUrlErrorView::Unparsable => "Cannot parse GitHub URL"@,
                RemoteUrlErrorView::NotGithub(url) => "Remote 'origin' is not a GitHub URL: "@
                    + url,
            },
    {
        match self {
            RemoteUrlError::Unparsable => String::from_str("Cannot parse GitHub URL"),
            RemoteUrlError::NotGithub(url) => {
                let mut s = String::from_str("Remote 'origin' is not a GitHub URL: ");
                s.append(url.as_str());
                s
            },
        }
    }
}

/// The owner and the repository of a path `owner/repo[.git]`: the path
/// without `.git` at its end, cut at its first slash. A path without a
/// slash names none.
pub open spec fn owner_and_repo(path: Seq<char>) -> Option<(Seq<char>, Seq<char>)> {
    let parts = splitn(trim_end_str(path, ".git"@), '/', 2);
    if parts.len() == 2 {
        Some((parts[0], parts[1]))
    } else {
        None
    }
}

/// The text between the first `github.com/` of a URL and the next one, or
/// the end.
pub open spec fn path_behind_host(url: Seq<char>) -> Option<Seq<char>> {
    match find_str(url, "github.com/"@) {
        Some(k) => {
            let rest = url.skip(k + "github.com/"@.len());
            match find_str(rest, "github.com/"@) {
                Some(j) => Some(rest.take(j)),
                None => Some(rest),
            }
        },
        None => None,
    }
}

/// The owner and the repository that an SSH URL `git@github.com:owner/repo`
/// names.
pub open spec fn ssh_repo(url: Seq<char>) -> Option<(Seq<char>, Seq<char>)> {
    if starts_with(url, "git@github.com:"@) {
        owner_and_repo(url.skip("git@github.com:"@.len() as int))
    } else {
        None
    }
}

/// The owner and the repository that the URL of a remote names, read from
/// what `git remote get-url origin` printed: an SSH URL of GitHub first;
/// else any URL that holds `github.com`, by the path behind `github.com/`.
pub open spec fn github_repo(output: Seq<char>) -> Result<
    (Seq<char>, Seq<char>),
    RemoteUrlErrorView,
> {
    let url = trim(output);
    match ssh_repo(url) {
        Some(pair) => Ok(pair),
        None => if contains_str(url, "github.com"@) {
            match path_behind_host(url) {
                None => Err(RemoteUrlErrorView::Unparsable),
                Some(path) => match owner_and_repo(path) {
                    Some(pair) => Ok(pair),
                    None => Err(RemoteUrlErrorView::NotGithub(url)),
                },
            }
        } else {
            Err(RemoteUrlErrorView::NotGithub(url))
        },
    }
}

fn owner_repo_of(path: &Vec<char>) -> (r: Option<(String, String)>)
    ensures
        r.deep_view() == owner_and_repo(path@),
{
    let bare = trimmed_end_str(path, &chars_of(".git"));
    let parts = split_fields(&bare, '/', 2);
    if parts.len() == 2 {
        assert(rows(parts@)[0] == parts@[0]@);
        assert(rows(parts@)[1] == parts@[1]@);
        Some((string_of(&parts[0]), string_of(&parts[1])))
    } else {
        None
    }
}

fn path_behind_host_of(url: &Vec<char>) -> (r: Option<Vec<char>>)
    ensures
        match r {
            Some(p) => path_behind_host(url@) == Some(p@),
            None => path_behind_host(url@) is None,
        },
{
    let host = chars_of("github.com/");
    match find_sub(url, &host, 0) {
        Some(k) => {
            let rest = subvec(url, k + host.len(), url.len());
            assert(rest@ =~= url@.skip(k + host.len()));
            match find_sub(&rest, &host, 0) {
                Some(j) => {
                    let piece = subvec(&rest, 0, j);
                    assert(piece@ =~= rest@.take(j as int));
                    Some(piece)
                },
                None => Some(rest),
            }
        },
        None => None,
    }
}

/// Reads the owner and the repository from what
/// `git remote get-url origin` printed.
pub fn parse_repo_from_remote(output: &str) -> (r: Result<(String, String), RemoteUrlError>)
    ensures
        match github_repo(output@) {
            Ok(pair) => r is Ok && r->Ok_0.deep_view() == pair,
            Err(e) => r is Err && r->Err_0@ == e,
        },
{
    let url = trimmed(&chars_of(output));
    if has_prefix(&url, "git@github.com:") {
        let mark = chars_of("git@github.com:");
        let rest = subvec(&url, mark.len(), url.len());
        assert(rest@ =~= url@.skip(mark.len() as int));
        match owner_repo_of(&rest) {
            Some(pair) => {
                return Ok(pair);
            },
            None => {},
        }
    }
    if contains_lit(&url, "github.com") {
        match path_behind_host_of(&url) {
            None => Err(RemoteUrlError::Unparsable),
            Some(path) => match owner_repo_of(&path) {
                Some(pair) => Ok(pair),
                None => Err(RemoteUrlError::NotGithub(string_of(&url))),
            },
        }
    } else {
        Err(RemoteUrlError::NotGithub(string_of(&url)))
    }
}

// ---------------------------------------------------------------------------
// Waiting for the token
// ---------------------------------------------------------------------------

/// The mathematical value of a `TokenResponse`.
pub struct TokenResponseView {
    pub access_token: Seq<char>,
    pub token_type: Seq<char>,
    pub scope: Seq<char>,
}

/// The mathematical value of an `ErrorResponse`.
pub struct ErrorResponseView {
    pub error: Seq<char>,
    pub error_description: Seq<char>,
    pub interval: Option<u64>,
}

/// The mathematical value of a `PollResult`.
pub enum PollResultView {
    Pending,
    Success(TokenResponseView),
    SlowDown(u64),
    Expired,
    AccessDenied,
    Error(Seq<char>),
}

impl View for TokenResponse {
    type V = TokenResponseView;

    open spec fn view(&self) -> TokenResponseView {
        TokenResponseView {
            access_token: self.access_token@,
            token_type: self.token_type@,
            scope: self.scope@,
        }
    }
}

impl DeepView for TokenResponse {
    type V = TokenResponseView;

    open spec fn deep_view(&self) -> TokenResponseView {
        self@
    }
}

impl View for ErrorResponse {
    type V = ErrorResponseView;

    open spec fn view(&self) -> ErrorResponseView {
        ErrorResponseView {
            error: self.error@,
            error_description: self.error_description@,
            interval: self.interval,
        }
    }
}

impl DeepView for ErrorResponse {
    type V = ErrorResponseView;

    open spec fn deep_view(&self) -> ErrorResponseView {
        self@
    }
}

impl View for PollResult {
    type V = PollResultView;

    open spec fn view(&self) -> PollResultView {
        match self {
            PollResult::Pending => PollResultView::Pending,
            PollResult::Success(t) => PollResultView::Success(t@),
            PollResult::SlowDown(n) => PollResultView::SlowDown(*n),
            PollResult::Expired => PollResultView::Expired,
            PollResult::AccessDenied => PollResultView::AccessDenied,
            PollResult::Error(e) => PollResultView::Error(e@),
        }
    }
}

/// What an error answer means while the device flow waits: GitHub names
/// the state in the field `error`; to slow down means to wait as long as
/// the answer says, or ten seconds; an unknown state is an error with the
/// answer's description.
pub open spec fn error_meaning(err: ErrorResponseView) -> PollResultView {
    if err.error == "authorization_pending"@ {
        PollResultView::Pending
    } else if err.error == "slow_down"@ {
        PollResultView::SlowDown(
            match err.interval {
                Some(n) => n,
                None => 10u64,
            },
        )
    } else if err.error == "expired_token"@ {
        PollResultView::Expired
    } else if err.error == "access_denied"@ {
        PollResultView::AccessDenied
    } else {
        PollResultView::Error(err.error_description)
    }
}

/// What an answer means while the device flow waits for its token: a
/// token that is not empty means success; else an error answer tells;
/// else the answer was not expected.
pub open spec fn poll_meaning(
    token: Option<TokenResponseView>,
    err: Option<ErrorResponseView>,
    body: Seq<char>,
) -> PollResultView {
    if token is Some && token->0.access_token.len() > 0 {
        PollResultView::Success(token->0)
    } else {
        match err {
            Some(e) => error_meaning(e),
            None => PollResultView::Error("Unexpected response: "@ + body),
        }
    }
}

fn classify_poll_error(err: ErrorResponse) -> (r: PollResult)
    ensures
        r@ == error_meaning(err@),
{
    let name = chars_of(err.error.as_str());
    if is_literal(&name, "authorization_pending") {
        PollResult::Pending
    } else if is_literal(&name, "slow_down") {
        PollResult::SlowDown(
            match err.interval {
                Some(n) => n,
                None => 10,
            },
        )
    } else if is_literal(&name, "expired_token") {
        PollResult::Expired
    } else if is_literal(&name, "access_denied") {
        PollResult::AccessDenied
    } else {
        PollResult::Error(err.error_description)
    }
}

/// Tells what an answer means while the device flow waits for its token.
/// `token` is the answer read as a token, `err` the answer read as an
/// error, each where it could be read so; `body` is the answer as it came.
pub fn poll_for_token(token: Option<TokenResponse>, err: Option<ErrorResponse>, body: &str) -> (r:
    PollResult)
    ensures
        r@ == poll_meaning(token.deep_view(), err.deep_view(), body@),
{
    match token {
        Some(t) => {
            if !t.access_token.as_str().is_empty() {
                return PollResult::Success(t);
            }
        },
        None => {},
    }
    match err {
        Some(e) => classify_poll_error(e),
        None => {
            let mut message = String::from_str("Unexpected response: ");
            message.append(body);
            PollResult::Error(message)
        },
    }
}

// ---------------------------------------------------------------------------
// Pull requests: filters, tabs and ways to merge
// ---------------------------------------------------------------------------

/// Which pull requests to list.
#[derive(Debug, Clone, Copy, PartialEq, Eq, Structural)]
pub enum PrFilter {
    Open,
    Closed,
    All,
}

impl PrFilter {
    /// The filter as the user reads it.
    pub fn label(&self) -> (s: &'static str)
        ensures
            s@ == match self {
                PrFilter::Open => "Open"@,
                PrFilter::Closed => "Closed"@,
                PrFilter::All => "All"@,
            },
    {
        match self {
            PrFilter::Open => "Open",
            PrFilter::Closed => "Closed",
            PrFilter::All => "All",
        }
    }

    /// The filter as the API of GitHub spells it.
    pub fn api_state(&self) -> (s: &'static str)
        ensures
            s@ == match self {
                PrFilter::Open => "open"@,
                PrFilter::Closed => "closed"@,
                PrFilter::All => "all"@,
            },
    {
        match self {
            PrFilter::Open => "open",
            PrFilter::Closed => "closed",
            PrFilter::All => "all",
        }
    }

    /// The filter that comes next: open, closed, all, and open again.
    pub open spec fn following(self) -> PrFilter {
        match self {
            PrFilter::Open => PrFilter::Closed,
            PrFilter::Closed => PrFilter::All,
            PrFilter::All => PrFilter::Open,
        }
    }

    /// The filter that comes next.
    pub fn next(&self) -> (f: Self)
        ensures
            f == self.following(),
    {
        match self {
            PrFilter::Open => PrFilter::Closed,
            PrFilter::Closed => PrFilter::All,
            PrFilter::All => PrFilter::Open,
        }
    }
}

/// The tab of a pull request's detail view.
#[derive(Debug, Clone, Copy, PartialEq, Eq, Structural)]
pub enum PrDetailTab {
    Overview,
    Files,
    Reviews,
}

impl PrDetailTab {
    /// The tab that comes next: overview, files, reviews, and overview
    /// again.
    pub open spec fn following(self) -> PrDetailTab {
        match self {
            PrDetailTab::Overview => PrDetailTab::Files,
            PrDetailTab::Files => PrDetailTab::Reviews,
            PrDetailTab::Reviews => PrDetailTab::Overview,
        }
    }

    /// The tab that comes next.
    pub fn next(&self) -> (t: Self)
        ensures
            t == self.following(),
    {
        match self {
            PrDetailTab::Overview => PrDetailTab::Files,
            PrDetailTab::Files => PrDetailTab::Reviews,
            PrDetailTab::Reviews => PrDetailTab::Overview,
        }
    }
}

/// The way to merge a pull request.
#[derive(Debug, Clone, Copy, PartialEq, Eq, Structural)]
pub enum MergeMethod {
    Merge,
    Squash,
    Rebase,
}

impl MergeMethod {
    /// The method as the API of GitHub spells it.
    pub fn label(&self) -> (s: &'static str)
        ensures
            s@ == match self {
                MergeMethod::Merge => "merge"@,
                MergeMethod::Squash => "squash"@,
                MergeMethod::Rebase => "rebase"@,
            },
    {
        match self {
            MergeMethod::Merge => "merge",
            MergeMethod::Squash => "squash",
            MergeMethod::Rebase => "rebase",
        }
    }

    /// The method as the user reads it.
    pub fn display(&self) -> (s: &'static str)
        ensures
            s@ == match self {
                MergeMethod::Merge => "Create Merge Commit"@,
                MergeMethod::Squash => "Squash and Merge"@,
                MergeMethod::Rebase => "Rebase and Merge"@,
            },
    {
        match self {
            MergeMethod::Merge => "Create Merge Commit",
            MergeMethod::Squash => "Squash and Merge",
            MergeMethod::Rebase => "Rebase and Merge",
        }
    }

    /// The method that comes next: merge, squash, rebase, and merge again.
    pub open spec fn following(self) -> MergeMethod {
        match self {
            MergeMethod::Merge => MergeMethod::Squash,
            MergeMethod::Squash => MergeMethod::Rebase,
            MergeMethod::Rebase => MergeMethod::Merge,
        }
    }

    /// The method that comes next.
    pub fn next(&self) -> (m: Self)
        ensures
            m == self.following(),
    {
        match self {
            MergeMethod::Merge => MergeMethod::Squash,
            MergeMethod::Squash => MergeMethod::Rebase,
            MergeMethod::Rebase => MergeMethod::Merge,
        }
    }
}

} // verus!
