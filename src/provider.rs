//! The provider side: which backend a configuration names, the connection
//! settings of an online backend, and what to do with the outcome of looking
//! up its API key.
use vstd::prelude::*;

use vstd::string::StrSliceExecFns;
use vstd::string::StringExecFns;

use crate::configuration::OnlineProviderOpts;
use crate::text::same_text;
use crate::transcript::opt_view;

verus! {

/// The name under which the Gemini backend is configured.
pub const GEMINI_PROVIDER: &'static str = "gemini";

/// The service under which API keys are kept in the credential store.
pub const SERVICE_NAME: &'static str = "llmcli_rs";

/// Failures of looking up an API key.
#[derive(Debug, Clone)]
pub enum Error {
    /// The credential store failed.
    KeyFetchError(String),
    /// No key is stored.
    NoApiKey,
}

/// The backends.
#[derive(Debug, Clone, Copy, PartialEq, Eq, Structural)]
pub enum ProviderKind {
    Gemini,
}

/// Where the keys of the current user are kept.
#[derive(Debug, Clone)]
pub struct APIKeyManager {
    pub user_name: String,
}

/// How to reach an online backend.
#[derive(Debug, Clone)]
pub struct OnlineProvider {
    pub api_key: String,
    pub url: String,
    pub model: String,
}

/// What to do once the key lookup has answered.
#[derive(Debug, Clone)]
pub enum KeyDecision {
    /// Use this key.
    Use(String),
    /// No key is stored: ask the user for one.
    Prompt,
    /// No key is stored and nobody can be asked.
    Missing,
    /// The credential store failed.
    Failed(String),
}

/// The longest URL, in characters, that is handed on to have a query set.
pub const MAX_URL_CHARS: usize = 100_000_000;

/// Which step of building an endpoint URL failed.
#[derive(Debug, Clone, Copy, PartialEq, Eq, Structural)]
pub enum UrlError {
    /// The configured base URL does not parse.
    InvalidBase,
    /// The model name does not make a URL below the base.
    InvalidModel,
    /// The model URL with the method appended does not parse.
    InvalidMethod,
    /// The URL and its query are longer than `MAX_URL_CHARS`.
    TooLong,
}

/// What `input` resolves to against the base URL `base`, serialised; `None`
/// where `base` does not parse or `input` does not resolve.
pub uninterp spec fn joined_url(base: Seq<char>, input: Seq<char>) -> Option<Seq<char>>;

/// The URL `url` with its query replaced by `query`, serialised; `None` where
/// `url` does not parse.
pub uninterp spec fn url_with_query(url: Seq<char>, query: Seq<char>) -> Option<Seq<char>>;

/// Relies on url::Url::parse and url::Url::join (re-exported by reqwest): the
/// result is a function of the two strings alone.
#[verifier::external_body]
fn join_url(base: &str, input: &str) -> (r: Option<String>)
    ensures
        opt_view(r) == joined_url(base@, input@),
{
    match reqwest::Url::parse(base) {
        Ok(b) => match b.join(input) {
            Ok(u) => Some(u.to_string()),
            Err(_) => None,
        },
        Err(_) => None,
    }
}

/// Relies on url::Url::parse and url::Url::set_query (re-exported by
/// reqwest): the result is a function of the two strings alone. The length
/// bound keeps the serialisation within the `u32` offsets that `set_query`
/// unwraps.
#[verifier::external_body]
fn set_url_query(url: &str, query: &str) -> (r: Option<String>)
    requires
        url@.len() + query@.len() <= MAX_URL_CHARS,
    ensures
        opt_view(r) == url_with_query(url@, query@),
{
    match reqwest::Url::parse(url) {
        Ok(mut u) => {
            u.set_query(Some(query));
            Some(u.to_string())
        },
        Err(_) => None,
    }
}

/// The path below a backend's base URL under which its models live.
pub const MODELS_PATH: &'static str = "v1beta/models/";

/// The URL of `method` of model `model` at base URL `url`, with `query`.
pub open spec fn endpoint_of(url: Seq<char>, model: Seq<char>, method: Seq<char>, query: Seq<char>) -> Result<Seq<char>, UrlError> {
    match joined_url(url, MODELS_PATH@) {
        None => Err(UrlError::InvalidBase),
        Some(root) => match joined_url(root, model) {
            None => Err(UrlError::InvalidModel),
            Some(m) => if m.len() + 1 + method.len() + query.len() > MAX_URL_CHARS {
                Err(UrlError::TooLong)
            } else {
                match url_with_query(m + ":"@ + method, query) {
                    None => Err(UrlError::InvalidMethod),
                    Some(full) => Ok(full),
                }
            },
        },
    }
}

/// The view of a URL result.
pub open spec fn url_result_view(r: Result<String, UrlError>) -> Result<Seq<char>, UrlError> {
    match r {
        Ok(s) => Ok(s@),
        Err(e) => Err(e),
    }
}

/// The query that carries the API key, with `extra` after it.
pub open spec fn key_query(api_key: Seq<char>, extra: Seq<char>) -> Seq<char> {
    "key="@ + api_key + extra
}

/// The backend that the name `name` stands for.
pub fn provider_kind(name: &str) -> (r: Option<ProviderKind>)
    ensures
        r == (if name@ == GEMINI_PROVIDER@ {
            Some(ProviderKind::Gemini)
        } else {
            None
        }),
{
    if same_text(name, GEMINI_PROVIDER) {
        Some(ProviderKind::Gemini)
    } else {
        None
    }
}

/// Decides on the outcome of a key lookup: a found key is used; a missing one
/// is asked for when someone can be asked.
pub fn decide_api_key(fetched: Result<String, Error>, interactive: bool) -> (r: KeyDecision)
    ensures
        fetched matches Ok(k) ==> (r matches KeyDecision::Use(u) && u == k),
        fetched matches Err(Error::NoApiKey) ==> (if interactive {
            r is Prompt
        } else {
            r is Missing
        }),
        fetched matches Err(Error::KeyFetchError(m)) ==> (r matches KeyDecision::Failed(f) && f == m),
{
    match fetched {
        Ok(key) => KeyDecision::Use(key),
        Err(Error::NoApiKey) => if interactive {
            KeyDecision::Prompt
        } else {
            KeyDecision::Missing
        },
        Err(Error::KeyFetchError(m)) => KeyDecision::Failed(m),
    }
}

impl APIKeyManager {
    /// The keys of the user `user_name`.
    pub fn new(user_name: String) -> (r: APIKeyManager)
        ensures
            r.user_name == user_name,
    {
        APIKeyManager { user_name }
    }
}

impl OnlineProvider {
    /// The backend that `config` points at, reached with `api_key`.
    pub fn new(config: &OnlineProviderOpts, api_key: String) -> (r: OnlineProvider)
        ensures
            r.url@ == config.url@,
            r.model@ == config.model@,
            r.api_key == api_key,
    {
        OnlineProvider { url: config.url.clone(), model: config.model.clone(), api_key }
    }

    /// The URL of `method` of the configured model, with `query`.
    pub fn model_url(&self, method: &str, query: &str) -> (r: Result<String, UrlError>)
        ensures
            url_result_view(r) == endpoint_of(self.url@, self.model@, method@, query@),
    {
        let root = match join_url(self.url.as_str(), MODELS_PATH) {
            Some(root) => root,
            None => return Err(UrlError::InvalidBase),
        };
        let mut m = match join_url(root.as_str(), self.model.as_str()) {
            Some(m) => m,
            None => return Err(UrlError::InvalidModel),
        };
        let m_len = m.as_str().unicode_len();
        let method_len = method.unicode_len();
        let query_len = query.unicode_len();
        if m_len > MAX_URL_CHARS || method_len > MAX_URL_CHARS || query_len > MAX_URL_CHARS
            || m_len + 1 + method_len + query_len > MAX_URL_CHARS {
            return Err(UrlError::TooLong);
        }
        proof {
            reveal_strlit(":");
        }
        m.append(":");
        m.append(method);
        match set_url_query(m.as_str(), query) {
            Some(full) => Ok(full),
            None => Err(UrlError::InvalidMethod),
        }
    }

    /// The URL that asks for a whole reply at once.
    pub fn build_chat_url(&self) -> (r: Result<String, UrlError>)
        ensures
            url_result_view(r) == endpoint_of(
                self.url@,
                self.model@,
                "generateContent"@,
                key_query(self.api_key@, Seq::empty()),
            ),
    {
        let mut query = String::from_str("key=");
        query.append(self.api_key.as_str());
        assert(query@ =~= key_query(self.api_key@, Seq::empty()));
        self.model_url("generateContent", query.as_str())
    }

    /// The URL that asks for a reply streamed as server-sent events.
    pub fn build_chat_stream_url(&self) -> (r: Result<String, UrlError>)
        ensures
            url_result_view(r) == endpoint_of(
                self.url@,
                self.model@,
                "streamGenerateContent"@,
                key_query(self.api_key@, "&alt=sse"@),
            ),
    {
        let mut query = String::from_str("key=");
        query.append(self.api_key.as_str());
        query.append("&alt=sse");
        self.model_url("streamGenerateContent", query.as_str())
    }
}

} // verus!
