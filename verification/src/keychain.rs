//! Secrets in the keychain of the operating system: which entry holds
//! which secret, what to ask of the keychain, and the move of secrets
//! out of the configuration.

use vstd::prelude::*;
use vstd::string::*;
use crate::config::Config;

verus! {

/// The name of this program's service in the keychain.
pub const SERVICE_NAME: &'static str = "zit-cli";

/// The entry that holds the OAuth token of GitHub.
pub const KEY_GITHUB_TOKEN: &'static str = "github-oauth-token";

/// The entry that holds the personal access token of GitHub.
pub const KEY_GITHUB_PAT: &'static str = "github-pat";

/// The entry that holds the key of the AI service.
pub const KEY_AI_API_KEY: &'static str = "ai-api-key";

/// What to do with an entry of the keychain.
#[derive(Debug, Clone, PartialEq, Eq)]
pub enum KeychainAction {
    /// Store this secret.
    Store(String),
    /// Read the secret.
    Read,
    /// Delete the entry.
    Delete,
}

/// One request to the keychain.
#[derive(Debug, Clone, PartialEq, Eq)]
pub struct KeychainRequest {
    pub service: String,
    pub key: String,
    pub action: KeychainAction,
}

/// The mathematical value of a `KeychainAction`.
pub enum KeychainActionView {
    Store(Seq<char>),
    Read,
    Delete,
}

/// The mathematical value of a `KeychainRequest`.
pub struct KeychainRequestView {
    pub service: Seq<char>,
    pub key: Seq<char>,
    pub action: KeychainActionView,
}

impl View for KeychainAction {
    type V = KeychainActionView;

    open spec fn view(&self) -> KeychainActionView {
        match self {
            KeychainAction::Store(secret) => KeychainActionView::Store(secret@),
            KeychainAction::Read => KeychainActionView::Read,
            KeychainAction::Delete => KeychainActionView::Delete,
        }
    }
}

impl View for KeychainRequest {
    type V = KeychainRequestView;

    open spec fn view(&self) -> KeychainRequestView {
        KeychainRequestView { service: self.service@, key: self.key@, action: self.action@ }
    }
}

impl DeepView for KeychainRequest {
    type V = KeychainRequestView;

    open spec fn deep_view(&self) -> KeychainRequestView {
        self@
    }
}

/// The request for the entry `key` of this program's service.
pub open spec fn request_for(key: Seq<char>, action: KeychainActionView) -> KeychainRequestView {
    KeychainRequestView { service: SERVICE_NAME@, key, action }
}

fn request(key: &str, action: KeychainAction) -> (r: KeychainRequest)
    ensures
        r@ == request_for(key@, action@),
{
    KeychainRequest { service: String::from_str(SERVICE_NAME), key: String::from_str(key), action }
}

/// The request that stores the OAuth token of GitHub.
pub fn store_github_token(token: &str) -> (r: KeychainRequest)
    ensures
        r@ == request_for(KEY_GITHUB_TOKEN@, KeychainActionView::Store(token@)),
{
    request(KEY_GITHUB_TOKEN, KeychainAction::Store(String::from_str(token)))
}

/// The request that reads the OAuth token of GitHub.
pub fn get_github_token() -> (r: KeychainRequest)
    ensures
        r@ == request_for(KEY_GITHUB_TOKEN@, KeychainActionView::Read),
{
    request(KEY_GITHUB_TOKEN, KeychainAction::Read)
}

/// The request that deletes the OAuth token of GitHub.
pub fn delete_github_token() -> (r: KeychainRequest)
    ensures
        r@ == request_for(KEY_GITHUB_TOKEN@, KeychainActionView::Delete),
{
    request(KEY_GITHUB_TOKEN, KeychainAction::Delete)
}

/// The request that stores the personal access token of GitHub.
pub fn store_github_pat(pat: &str) -> (r: KeychainRequest)
    ensures
        r@ == request_for(KEY_GITHUB_PAT@, KeychainActionView::Store(pat@)),
{
    request(KEY_GITHUB_PAT, KeychainAction::Store(String::from_str(pat)))
}

/// The request that reads the personal access token of GitHub.
pub fn get_github_pat() -> (r: KeychainRequest)
    ensures
        r@ == request_for(KEY_GITHUB_PAT@, KeychainActionView::Read),
{
    request(KEY_GITHUB_PAT, KeychainAction::Read)
}

/// The request that deletes the personal access token of GitHub.
pub fn delete_github_pat() -> (r: KeychainRequest)
    ensures
        r@ == request_for(KEY_GITHUB_PAT@, KeychainActionView::Delete),
{
    request(KEY_GITHUB_PAT, KeychainAction::Delete)
}

/// The request that stores the key of the AI service.
pub fn store_ai_api_key(key: &str) -> (r: KeychainRequest)
    ensures
        r@ == request_for(KEY_AI_API_KEY@, KeychainActionView::Store(key@)),
{
    request(KEY_AI_API_KEY, KeychainAction::Store(String::from_str(key)))
}

/// The request that reads the key of the AI service.
pub fn get_ai_api_key() -> (r: KeychainRequest)
    ensures
        r@ == request_for(KEY_AI_API_KEY@, KeychainActionView::Read),
{
    request(KEY_AI_API_KEY, KeychainAction::Read)
}

/// The request that deletes the key of the AI service.
pub fn delete_ai_api_key() -> (r: KeychainRequest)
    ensures
        r@ == request_for(KEY_AI_API_KEY@, KeychainActionView::Delete),
{
    request(KEY_AI_API_KEY, KeychainAction::Delete)
}

/// The requests that delete every secret of this program: the OAuth
/// token, the personal access token and the key of the AI service.
pub fn clear_all() -> (requests: Vec<KeychainRequest>)
    ensures
        requests.deep_view() == seq![
            request_for(KEY_GITHUB_TOKEN@, KeychainActionView::Delete),
            request_for(KEY_GITHUB_PAT@, KeychainActionView::Delete),
            request_for(KEY_AI_API_KEY@, KeychainActionView::Delete),
        ],
{
    let mut requests: Vec<KeychainRequest> = Vec::new();
    requests.push(delete_github_token());
    requests.push(delete_github_pat());
    requests.push(delete_ai_api_key());
    assert(requests.deep_view() =~= seq![
        request_for(KEY_GITHUB_TOKEN@, KeychainActionView::Delete),
        request_for(KEY_GITHUB_PAT@, KeychainActionView::Delete),
        request_for(KEY_AI_API_KEY@, KeychainActionView::Delete),
    ]);
    requests
}

/// A secret of the configuration after the move: gone where it was there
/// and the keychain has taken it.
pub open spec fn after_move(secret: Option<Seq<char>>, stored: bool) -> Option<Seq<char>> {
    if secret is Some && stored {
        None
    } else {
        secret
    }
}

/// 1 where a secret was there and the keychain has taken it, else 0.
pub open spec fn moved(secret: Option<Seq<char>>, stored: bool) -> int {
    if secret is Some && stored {
        1
    } else {
        0
    }
}

/// Takes out of the configuration the secrets that the keychain has
/// taken, and counts them. `token_stored`, `pat_stored` and `key_stored`
/// tell whether the keychain has stored the OAuth token, the personal
/// access token and the key of the AI service.
pub fn migrate_from_config(
    config: &mut Config,
    token_stored: bool,
    pat_stored: bool,
    key_stored: bool,
) -> (count: u32)
    ensures
        final(config).github.oauth_token.deep_view() == after_move(
            old(config).github.oauth_token.deep_view(),
            token_stored,
        ),
        final(config).github.pat.deep_view() == after_move(
            old(config).github.pat.deep_view(),
            pat_stored,
        ),
        final(config).ai.api_key.deep_view() == after_move(
            old(config).ai.api_key.deep_view(),
            key_stored,
        ),
        final(config).github.username == old(config).github.username,
        final(config).general == old(config).general,
        final(config).ui == old(config).ui,
        final(config).ai.enabled == old(config).ai.enabled,
        final(config).ai.endpoint == old(config).ai.endpoint,
        final(config).ai.timeout_secs == old(config).ai.timeout_secs,
        count == moved(old(config).github.oauth_token.deep_view(), token_stored) + moved(
            old(config).github.pat.deep_view(),
            pat_stored,
        ) + moved(old(config).ai.api_key.deep_view(), key_stored),
{
    let mut count: u32 = 0;
    if config.github.oauth_token.is_some() && token_stored {
        config.github.oauth_token = None;
        count += 1;
    }
    if config.github.pat.is_some() && pat_stored {
        config.github.pat = None;
        count += 1;
    }
    if config.ai.api_key.is_some() && key_stored {
        config.ai.api_key = None;
        count += 1;
    }
    count
}

} // verus!
