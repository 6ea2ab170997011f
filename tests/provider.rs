use llcli::cli::{ChatCommand, CliHandler, FileInputHandler};
use llcli::configuration::{
    Configuration, GeminiProviderOpts, OnlineProviderOpts, ProviderOpts, ToolOptions,
};
use llcli::provider::{
    decide_api_key, provider_kind, Error, KeyDecision, OnlineProvider, ProviderKind, UrlError,
};
use llcli::stream::{StreamInput, StreamRelay};
use llcli::session::{Event, LlmResponse};
use llcli::tools::{LLMTools, LlmToolEnum};

fn config(search_default: Option<Option<bool>>) -> Configuration {
    Configuration {
        provider: "gemini".to_string(),
        provider_opts: ProviderOpts {
            gemini: GeminiProviderOpts {
                online_opts: OnlineProviderOpts {
                    url: "https://example.test/".to_string(),
                    model: "m".to_string(),
                },
            },
        },
        tools: search_default.map(|s| ToolOptions { search_default: s }),
    }
}

#[test]
fn tools_from_config_and_merge() {
    assert!(!LLMTools::new(&config(None)).search);
    assert!(!LLMTools::new(&config(Some(None))).search);
    assert!(LLMTools::new(&config(Some(Some(true)))).search);
    let mut t = LLMTools::new(&config(Some(Some(false))));
    t.merge(&ChatCommand { message: None, search: true }.get_tools());
    assert!(t.search);
    t.merge(&LLMTools { search: false });
    assert!(t.search);
}

#[test]
fn tool_entries() {
    assert_eq!(LlmToolEnum::from_repr(0), Some(LlmToolEnum::Search));
    assert_eq!(LlmToolEnum::from_repr(1), None);
    assert_eq!(LlmToolEnum::all(), vec![LlmToolEnum::Search]);
    let item = LlmToolEnum::Search.with_context(&LLMTools { search: true });
    assert!(item.activated());
    assert_eq!(item.llm_item.display_name(), "Web Search");
}

#[test]
fn online_provider_and_kind() {
    let c = config(None);
    let p = OnlineProvider::new(&c.provider_opts.gemini.online_opts, "k".to_string());
    assert_eq!(p.url, "https://example.test/");
    assert_eq!(p.model, "m");
    assert_eq!(p.api_key, "k");
    assert_eq!(provider_kind("gemini"), Some(ProviderKind::Gemini));
    assert_eq!(provider_kind("other"), None);
    let h = CliHandler::new(FileInputHandler::new("/tmp".to_string()));
    assert_eq!(h.file_handler.cwd, "/tmp");
}

#[test]
fn key_decisions() {
    assert!(matches!(decide_api_key(Ok("k".to_string()), false), KeyDecision::Use(k) if k == "k"));
    assert!(matches!(decide_api_key(Err(Error::NoApiKey), true), KeyDecision::Prompt));
    assert!(matches!(decide_api_key(Err(Error::NoApiKey), false), KeyDecision::Missing));
    assert!(matches!(
        decide_api_key(Err(Error::KeyFetchError("locked".to_string())), true),
        KeyDecision::Failed(m) if m == "locked"
    ));
}

#[test]
fn relay_forwards_then_closes() {
    let mut r = StreamRelay::new();
    assert!(matches!(
        r.step(StreamInput::Delta("a".to_string())),
        Some(Event::LlmResponse(LlmResponse::Chunk(t))) if t == "a"
    ));
    assert!(!r.is_done());
    assert!(matches!(
        r.step(StreamInput::Exhausted),
        Some(Event::LlmResponse(LlmResponse::Finished))
    ));
    assert!(r.is_done());
    assert!(r.step(StreamInput::Delta("b".to_string())).is_none());
}

#[test]
fn relay_error_is_terminal() {
    let mut r = StreamRelay::new();
    assert!(matches!(
        r.step(StreamInput::DeltaFailed("bad json".to_string())),
        Some(Event::StreamError(c)) if c == "bad json"
    ));
    assert!(r.step(StreamInput::Exhausted).is_none());
    let mut r = StreamRelay::new();
    assert!(matches!(
        r.step(StreamInput::OpenFailed("refused".to_string())),
        Some(Event::StreamError(c)) if c == "refused"
    ));
    assert!(r.is_done());
}

#[test]
fn endpoint_urls() {
    let p = OnlineProvider {
        api_key: "K".to_string(),
        url: "https://generativelanguage.googleapis.com/".to_string(),
        model: "gemini-pro".to_string(),
    };
    assert_eq!(
        p.build_chat_url(),
        Ok("https://generativelanguage.googleapis.com/v1beta/models/gemini-pro:generateContent?key=K".to_string())
    );
    assert_eq!(
        p.build_chat_stream_url(),
        Ok("https://generativelanguage.googleapis.com/v1beta/models/gemini-pro:streamGenerateContent?key=K&alt=sse".to_string())
    );
}

#[test]
fn endpoint_url_errors() {
    let bad = OnlineProvider {
        api_key: "K".to_string(),
        url: "not a url".to_string(),
        model: "m".to_string(),
    };
    assert_eq!(bad.build_chat_url(), Err(UrlError::InvalidBase));
    let replaced = OnlineProvider {
        api_key: "K".to_string(),
        url: "https://example.test/".to_string(),
        model: "//other.test/x".to_string(),
    };
    assert_eq!(
        replaced.build_chat_url(),
        Ok("https://other.test/x:generateContent?key=K".to_string())
    );
    let bad_model = OnlineProvider {
        api_key: "K".to_string(),
        url: "https://example.test/".to_string(),
        model: "http://[".to_string(),
    };
    assert_eq!(bad_model.build_chat_url(), Err(UrlError::InvalidModel));
}
