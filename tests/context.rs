use llcli::transcript::{
    ChatContext, ChatData, ChatHistoryItem, ChatRole, ContextError,
};

fn text_at(c: &ChatContext, i: usize) -> String {
    match &c.get_history()[i] {
        ChatHistoryItem::Chat(d) => d.text.clone(),
        ChatHistoryItem::FileUpload(f) => f.text.clone(),
    }
}

#[test]
fn clear_then_snapshot_is_empty() {
    let mut c = ChatContext::new();
    c.add_chat_to_context(ChatHistoryItem::Chat(ChatData::user("hi".to_string())));
    c.add_chat_to_context(ChatHistoryItem::Chat(ChatData::system("be brief".to_string())));
    c.add_chat_to_context(ChatHistoryItem::file_upload("a.rs".to_string(), "fn a() {}".to_string()));
    c.clear_history();
    let s = c.snapshot();
    assert!(s.entries.is_empty());
    assert!(s.system_prompt.is_none());
}

#[test]
fn add_returns_stable_indices() {
    let mut c = ChatContext::new();
    assert_eq!(c.add_chat_to_context(ChatHistoryItem::Chat(ChatData::user("a".to_string()))), Some(0));
    assert_eq!(c.add_chat_to_context(ChatHistoryItem::Chat(ChatData::model("b".to_string()))), Some(1));
    assert_eq!(
        c.add_chat_to_context(ChatHistoryItem::Chat(ChatData::system("s".to_string()))),
        None
    );
    assert_eq!(c.get_history().len(), 2);
    assert_eq!(c.system_prompt(), Some("s".to_string()));
    assert_eq!(c.append_chat_in_context(0, "x"), Ok(()));
    assert_eq!(text_at(&c, 0), "ax");
    assert_eq!(text_at(&c, 1), "b");
}

#[test]
fn system_directive_replaces_earlier_one() {
    let mut c = ChatContext::new();
    c.add_chat_to_context(ChatHistoryItem::Chat(ChatData::system("one".to_string())));
    c.set_system_directive("two".to_string());
    assert_eq!(c.system_prompt(), Some("two".to_string()));
    assert!(c.get_history().is_empty());
}

#[test]
fn append_to_file_entry_is_noop() {
    let mut c = ChatContext::new();
    c.add_chat_to_context(ChatHistoryItem::file_upload("f.txt".to_string(), "body".to_string()));
    assert_eq!(c.append_chat_in_context(0, "more"), Ok(()));
    assert_eq!(text_at(&c, 0), "body");
}

#[test]
fn append_out_of_range_is_error() {
    let mut c = ChatContext::new();
    c.add_chat_to_context(ChatHistoryItem::Chat(ChatData::model("m".to_string())));
    assert_eq!(c.append_chat_in_context(3, "x"), Err(ContextError::NoEntryAt(3)));
    assert_eq!(text_at(&c, 0), "m");
}

#[test]
fn update_memory_records_exchange() {
    let mut c = ChatContext::new();
    c.update_memory("q".to_string(), "r".to_string());
    let h = c.get_history();
    assert_eq!(h.len(), 2);
    match (&h[0], &h[1]) {
        (ChatHistoryItem::Chat(a), ChatHistoryItem::Chat(b)) => {
            assert_eq!((a.role, a.text.as_str()), (ChatRole::User, "q"));
            assert_eq!((b.role, b.text.as_str()), (ChatRole::Model, "r"));
        }
        _ => panic!("expected two chat entries"),
    }
}

#[test]
fn role_titles() {
    assert_eq!(ChatRole::User.display(), "User");
    assert_eq!(ChatRole::Model.display(), "LLM");
    assert_eq!(ChatRole::System.display(), "System Instructions");
}
