use llcli::tools::LLMTools;
use llcli::transcript::{ChatContext, ChatData, ChatHistoryItem};
use llcli::wire::{
    build_chat_body, build_tools, decode_llm_response, serialise_chat, Candidate, Content,
    DecodeError, GeminiApiResponse, Part,
};

#[test]
fn request_body_in_order_with_file_framing() {
    let mut c = ChatContext::new();
    c.add_chat_to_context(ChatHistoryItem::Chat(ChatData::user("hi".to_string())));
    c.add_chat_to_context(ChatHistoryItem::Chat(ChatData::model("hello".to_string())));
    c.add_chat_to_context(ChatHistoryItem::file_upload("src/a.rs".to_string(), "fn a() {}".to_string()));
    c.set_system_directive("only code".to_string());
    let body = build_chat_body(&c.snapshot(), &LLMTools { search: true }, "next");
    assert_eq!(body.system_instruction.as_deref(), Some("only code"));
    let turns: Vec<(String, String)> =
        body.contents.iter().map(|t| (t.role.clone(), t.text.clone())).collect();
    assert_eq!(
        turns,
        vec![
            ("user".to_string(), "hi".to_string()),
            ("model".to_string(), "hello".to_string()),
            ("user".to_string(), "## <src/a.rs> Contents below ##\nfn a() {}".to_string()),
            ("user".to_string(), "next".to_string()),
        ]
    );
    assert_eq!(body.tools, vec!["google_search".to_string()]);
}

#[test]
fn system_entries_are_left_out_of_turns() {
    let snapshot = llcli::transcript::ContextSnapshot {
        entries: vec![
            ChatHistoryItem::Chat(ChatData::system("sys".to_string())),
            ChatHistoryItem::Chat(ChatData::user("u".to_string())),
        ],
        system_prompt: None,
    };
    let body = build_chat_body(&snapshot, &LLMTools { search: false }, "p");
    assert_eq!(body.contents.len(), 2);
    assert_eq!(body.contents[0].text, "u");
    assert!(body.system_instruction.is_none());
    assert!(body.tools.is_empty());
}

#[test]
fn serialise_system_role_tag() {
    let t = serialise_chat(&ChatHistoryItem::Chat(ChatData::system("s".to_string())));
    assert_eq!(t.role, "system_instruction");
    assert_eq!(build_tools(&LLMTools { search: false }).len(), 0);
}

#[test]
fn decode_takes_last_part_of_first_candidate() {
    let r = GeminiApiResponse {
        candidates: vec![
            Candidate {
                content: Content {
                    parts: vec![Part { text: "a".to_string() }, Part { text: "b".to_string() }],
                },
            },
            Candidate { content: Content { parts: vec![Part { text: "c".to_string() }] } },
        ],
    };
    assert_eq!(decode_llm_response(&r), Ok("b".to_string()));
}

#[test]
fn decode_errors() {
    assert_eq!(
        decode_llm_response(&GeminiApiResponse::default()),
        Err(DecodeError::NoCandidates)
    );
    let r = GeminiApiResponse { candidates: vec![Candidate::default()] };
    assert_eq!(decode_llm_response(&r), Err(DecodeError::NoParts));
}
