//! The configuration: its values, their defaults and the check of the AI
//! settings.

use vstd::prelude::*;
use vstd::string::*;
use crate::text::chars_of;
use crate::search::{starts_with, has_prefix, find_from, find_char};
use vstd::utf8::encode_utf8;

verus! {

/// The whole configuration.
#[derive(Debug, Clone)]
pub struct Config {
    pub general: GeneralConfig,
    pub github: GithubConfig,
    pub ui: UiConfig,
    pub ai: AiConfig,
}

/// General settings.
#[derive(Debug, Clone)]
pub struct GeneralConfig {
    /// The time between two refreshes, in milliseconds.
    pub tick_rate_ms: u64,
    /// Ask before an action that destroys work.
    pub confirm_destructive: bool,
}

/// The GitHub settings.
#[derive(Debug, Clone)]
pub struct GithubConfig {
    /// A personal access token.
    pub pat: Option<String>,
    /// A token from the OAuth device flow.
    pub oauth_token: Option<String>,
    pub username: Option<String>,
}

/// The settings of the user interface.
#[derive(Debug, Clone)]
pub struct UiConfig {
    pub color_scheme: String,
    pub show_help_hints: bool,
}

/// The settings of the AI mentor.
#[derive(Debug, Clone)]
pub struct AiConfig {
    pub enabled: bool,
    /// The URL of the service.
    pub endpoint: Option<String>,
    /// The key for the service.
    pub api_key: Option<String>,
    /// The time allowed to a request, in seconds.
    pub timeout_secs: Option<u64>,
}

/// The time between two refreshes where none is configured.
pub fn default_tick_rate() -> (ms: u64)
    ensures
        ms == 2000,
{
    2000
}

/// The value of a switch that is on where nothing is configured.
pub fn default_true() -> (b: bool)
    ensures
        b,
{
    true
}

/// The colour scheme where none is configured.
pub fn default_color_scheme() -> (s: String)
    ensures
        s@ == "default"@,
{
    String::from_str("default")
}

impl Default for GeneralConfig {
    fn default() -> (c: Self)
        ensures
            c.tick_rate_ms == 2000,
            c.confirm_destructive,
    {
        GeneralConfig { tick_rate_ms: default_tick_rate(), confirm_destructive: true }
    }
}

impl Default for GithubConfig {
    fn default() -> (c: Self)
        ensures
            c.pat is None,
            c.oauth_token is None,
            c.username is None,
    {
        GithubConfig { pat: None, oauth_token: None, username: None }
    }
}

impl Default for UiConfig {
    fn default() -> (c: Self)
        ensures
            c.color_scheme@ == "default"@,
            c.show_help_hints,
    {
        UiConfig { color_scheme: default_color_scheme(), show_help_hints: true }
    }
}

impl Default for AiConfig {
    fn default() -> (c: Self)
        ensures
            !c.enabled,
            c.endpoint is None,
            c.api_key is None,
            c.timeout_secs == Some(30u64),
    {
        AiConfig { enabled: false, endpoint: None, api_key: None, timeout_secs: Some(30) }
    }
}

impl Default for Config {
    fn default() -> (c: Self)
        ensures
            c.general.tick_rate_ms == 2000,
            c.general.confirm_destructive,
            c.github.pat is None,
            c.github.oauth_token is None,
            c.github.username is None,
            c.ui.color_scheme@ == "default"@,
            c.ui.show_help_hints,
            !c.ai.enabled,
            c.ai.endpoint is None,
            c.ai.api_key is None,
            c.ai.timeout_secs == Some(30u64),
    {
        Config {
            general: GeneralConfig::default(),
            github: GithubConfig::default(),
            ui: UiConfig::default(),
            ai: AiConfig::default(),
        }
    }
}

/// The first of two optional texts that is there.
pub open spec fn first_of(a: Option<Seq<char>>, b: Option<Seq<char>>) -> Option<Seq<char>> {
    match a {
        Some(_) => a,
        None => b,
    }
}

impl GithubConfig {
    /// The token to use: the OAuth token before the personal access token.
    pub fn get_token(&self) -> (token: Option<&str>)
        ensures
            token.deep_view() == first_of(self.oauth_token.deep_view(), self.pat.deep_view()),
    {
        match &self.oauth_token {
            Some(t) => Some(t.as_str()),
            None => match &self.pat {
                Some(t) => Some(t.as_str()),
                None => None,
            },
        }
    }
}

// ---------------------------------------------------------------------------
// The check of the AI settings
// ---------------------------------------------------------------------------

/// What is wrong with the endpoint: it is not set, does not begin with
/// `https://` or `http://`, or holds no dot.
pub open spec fn endpoint_issues(endpoint: Option<Seq<char>>) -> Seq<Seq<char>> {
    match endpoint {
        None => seq![
            "AI endpoint not set — add 'endpoint' to [ai] config or set ZIT_AI_ENDPOINT"@,
        ],
        Some(url) => (if !starts_with(url, "https://"@) && !starts_with(url, "http://"@) {
            seq!["AI endpoint must start with https:// or http://, got: "@ + url]
        } else {
            Seq::empty()
        }) + (if find_from(url, '.', 0) >= url.len() {
            seq!["AI endpoint URL doesn't look like a valid domain"@]
        } else {
            Seq::empty()
        }),
    }
}

/// What is wrong with the key: it is not set, or takes fewer than eight
/// bytes.
pub open spec fn api_key_issues(key: Option<Seq<char>>) -> Seq<Seq<char>> {
    match key {
        None => seq![
            "AI API key not set — add 'api_key' to [ai] config or set ZIT_AI_API_KEY"@,
        ],
        Some(k) => if encode_utf8(k).len() < 8 {
            seq!["AI API key seems too short (< 8 chars)"@]
        } else {
            Seq::empty()
        },
    }
}

/// What is wrong with the timeout: it is 0, or above 120 seconds.
pub open spec fn timeout_issues(timeout: Option<u64>) -> Seq<Seq<char>> {
    match timeout {
        Some(t) => if t == 0 {
            seq!["AI timeout_secs must be > 0"@]
        } else if t > 120 {
            seq!["AI timeout_secs > 120s is unusually high — consider lowering"@]
        } else {
            Seq::empty()
        },
        None => Seq::empty(),
    }
}

/// The mathematical value of an `AiConfig`.
pub struct AiConfigView {
    pub enabled: bool,
    pub endpoint: Option<Seq<char>>,
    pub api_key: Option<Seq<char>>,
    pub timeout_secs: Option<u64>,
}

impl View for AiConfig {
    type V = AiConfigView;

    open spec fn view(&self) -> AiConfigView {
        AiConfigView {
            enabled: self.enabled,
            endpoint: self.endpoint.deep_view(),
            api_key: self.api_key.deep_view(),
            timeout_secs: self.timeout_secs,
        }
    }
}

/// What is wrong with the AI settings, in the order endpoint, key,
/// timeout; nothing where the mentor is switched off. A value that the
/// configuration does not hold is taken from the environment.
pub open spec fn ai_issues(
    cfg: AiConfigView,
    env_endpoint: Option<Seq<char>>,
    env_api_key: Option<Seq<char>>,
) -> Seq<Seq<char>> {
    if !cfg.enabled {
        Seq::empty()
    } else {
        endpoint_issues(first_of(cfg.endpoint, env_endpoint)) + api_key_issues(
            first_of(cfg.api_key, env_api_key),
        ) + timeout_issues(cfg.timeout_secs)
    }
}

/// The text of an optional string slice.
pub open spec fn option_text(value: Option<&str>) -> Option<Seq<char>> {
    match value {
        Some(v) => Some(v@),
        None => None,
    }
}

fn push_issue(issues: &mut Vec<String>, issue: String)
    ensures
        final(issues).deep_view() == old(issues).deep_view() + seq![issue@],
{
    issues.push(issue);
    assert(issues.deep_view() =~= old(issues).deep_view() + seq![issue@]);
}

impl AiConfig {
    /// The key to use: that of the configuration, else that of the
    /// environment (`ZIT_AI_API_KEY`).
    pub fn resolved_api_key(&self, env_api_key: Option<&str>) -> (key: Option<String>)
        ensures
            key.deep_view() == first_of(self@.api_key, option_text(env_api_key)),
    {
        match &self.api_key {
            Some(k) => Some(k.clone()),
            None => match env_api_key {
                Some(k) => Some(String::from_str(k)),
                None => None,
            },
        }
    }

    /// The endpoint to use: that of the configuration, else that of the
    /// environment (`ZIT_AI_ENDPOINT`).
    pub fn resolved_endpoint(&self, env_endpoint: Option<&str>) -> (endpoint: Option<String>)
        ensures
            endpoint.deep_view() == first_of(self@.endpoint, option_text(env_endpoint)),
    {
        match &self.endpoint {
            Some(e) => Some(e.clone()),
            None => match env_endpoint {
                Some(e) => Some(String::from_str(e)),
                None => None,
            },
        }
    }

    /// Checks the AI settings and lists what is wrong with them; an empty
    /// list means that they are in order. `env_endpoint` and `env_api_key`
    /// are the values of `ZIT_AI_ENDPOINT` and `ZIT_AI_API_KEY`.
    pub fn validate(&self, env_endpoint: Option<&str>, env_api_key: Option<&str>) -> (issues: Vec<
        String,
    >)
        ensures
            issues.deep_view() == ai_issues(
                self@,
                option_text(env_endpoint),
                option_text(env_api_key),
            ),
    {
        let mut issues: Vec<String> = Vec::new();
        assert(issues.deep_view() =~= Seq::<Seq<char>>::empty());
        if !self.enabled {
            return issues;
        }
        match self.resolved_endpoint(env_endpoint) {
            None => {
                push_issue(
                    &mut issues,
                    String::from_str(
                        "AI endpoint not set — add 'endpoint' to [ai] config or set ZIT_AI_ENDPOINT",
                    ),
                );
            },
            Some(url) => {
                let text = chars_of(url.as_str());
                if !has_prefix(&text, "https://") && !has_prefix(&text, "http://") {
                    let mut issue = String::from_str(
                        "AI endpoint must start with https:// or http://, got: ",
                    );
                    issue.append(url.as_str());
                    push_issue(&mut issues, issue);
                }
                if find_char(&text, '.', 0) >= text.len() {
                    push_issue(
                        &mut issues,
                        String::from_str("AI endpoint URL doesn't look like a valid domain"),
                    );
                }
            },
        }
        let ghost after_endpoint = issues.deep_view();
        assert(after_endpoint =~= endpoint_issues(
            first_of(self@.endpoint, option_text(env_endpoint)),
        ));
        match self.resolved_api_key(env_api_key) {
            None => {
                push_issue(
                    &mut issues,
                    String::from_str(
                        "AI API key not set — add 'api_key' to [ai] config or set ZIT_AI_API_KEY",
                    ),
                );
            },
            Some(key) => {
                if key.as_str().as_bytes().len() < 8 {
                    push_issue(
                        &mut issues,
                        String::from_str("AI API key seems too short (< 8 chars)"),
                    );
                }
            },
        }
        let ghost after_key = issues.deep_view();
        assert(after_key =~= after_endpoint + api_key_issues(
            first_of(self@.api_key, option_text(env_api_key)),
        ));
        match self.timeout_secs {
            Some(timeout) => {
                if timeout == 0 {
                    push_issue(&mut issues, String::from_str("AI timeout_secs must be > 0"));
                } else if timeout > 120 {
                    push_issue(
                        &mut issues,
                        String::from_str(
                            "AI timeout_secs > 120s is unusually high — consider lowering",
                        ),
                    );
                }
            },
            None => {},
        }
        assert(issues.deep_view() =~= after_key + timeout_issues(self.timeout_secs));
        issues
    }

    /// The mentor can be used: it is switched on, and an endpoint and a
    /// key are there, in the configuration or in the environment.
    pub fn is_ready(&self, env_endpoint: Option<&str>, env_api_key: Option<&str>) -> (b: bool)
        ensures
            b == (self.enabled && first_of(self@.endpoint, option_text(env_endpoint)) is Some
                && first_of(self@.api_key, option_text(env_api_key)) is Some),
    {
        self.enabled && (self.endpoint.is_some() || env_endpoint.is_some()) && (
        self.api_key.is_some() || env_api_key.is_some())
    }
}

} // verus!
