use llcli::input::{Input, KeyCode, KeyEvent, KeyEventKind, KeyModifiers};
use llcli::session::{
    classify, Action, App, Command, Event, LlmResponse, Popover, SelectedZone, SessionError,
};
use llcli::tools::LLMTools;
use llcli::transcript::{ChatContext, ChatHistoryItem, ChatRole};

fn press(code: KeyCode, modifiers: KeyModifiers) -> Event {
    Event::Key(KeyEvent::press(code, modifiers))
}

fn submit_key() -> Event {
    press(KeyCode::Char('s'), KeyModifiers::control())
}

fn chunk(t: &str) -> Event {
    Event::LlmResponse(LlmResponse::Chunk(t.to_string()))
}

fn chat_of(item: &ChatHistoryItem) -> (ChatRole, String) {
    match item {
        ChatHistoryItem::Chat(c) => (c.role, c.text.clone()),
        ChatHistoryItem::FileUpload(_) => panic!("expected a chat entry"),
    }
}

fn new_app() -> App {
    App::new(ChatContext::new(), LLMTools::none())
}

#[test]
fn submit_then_stream_then_finish() {
    let mut app = new_app();
    app.set_draft("hello".to_string());
    let action = app.handle_event(submit_key()).unwrap();
    match action {
        Action::Generate(req) => {
            assert_eq!(req.prompt, "hello");
            assert_eq!(req.context.entries.len(), 0);
        }
        _ => panic!("expected a generation to start"),
    }
    let h = app.context().get_history();
    assert_eq!(h.len(), 1);
    assert_eq!(chat_of(&h[0]), (ChatRole::User, "hello".to_string()));
    assert!(app.generating());
    assert_eq!(app.draft(), "");

    app.handle_event(chunk("Hi")).unwrap();
    app.handle_event(chunk(" there")).unwrap();
    app.handle_event(Event::LlmResponse(LlmResponse::Finished)).unwrap();
    let h = app.context().get_history();
    assert_eq!(h.len(), 2);
    assert_eq!(chat_of(&h[0]), (ChatRole::User, "hello".to_string()));
    assert_eq!(chat_of(&h[1]), (ChatRole::Model, "Hi there".to_string()));
    assert!(!app.generating());
    assert_eq!(app.streaming_target(), None);
}

#[test]
fn chunks_concatenate_into_one_model_entry() {
    let mut app = new_app();
    app.set_draft("q".to_string());
    app.handle_event(submit_key()).unwrap();
    for c in ["a", "bc", "", "d"] {
        app.handle_event(chunk(c)).unwrap();
        app.handle_event(Event::Tick).unwrap();
    }
    let h = app.context().get_history();
    assert_eq!(h.len(), 2);
    assert_eq!(chat_of(&h[1]), (ChatRole::Model, "abcd".to_string()));
    assert_eq!(app.streaming_target(), Some(1));
    assert!(app.generating());
}

#[test]
fn submit_while_generating_is_ignored() {
    let mut app = new_app();
    app.set_draft("first".to_string());
    app.handle_event(submit_key()).unwrap();
    app.set_draft("second".to_string());
    let action = app.handle_event(submit_key()).unwrap();
    assert!(matches!(action, Action::Nothing));
    assert_eq!(app.context().get_history().len(), 1);
    assert_eq!(app.draft(), "second");
    assert!(app.generating());
}

#[test]
fn empty_draft_is_not_submitted() {
    let mut app = new_app();
    let action = app.handle_event(submit_key()).unwrap();
    assert!(matches!(action, Action::Nothing));
    assert_eq!(app.context().get_history().len(), 0);
    assert!(!app.generating());
}

#[test]
fn stream_error_keeps_partial_text() {
    let mut app = new_app();
    app.set_draft("tell me".to_string());
    app.handle_event(submit_key()).unwrap();
    app.handle_event(chunk("Par")).unwrap();
    app.handle_event(Event::StreamError("connection reset".to_string()))
        .unwrap();
    let h = app.context().get_history();
    assert_eq!(h.len(), 2);
    assert_eq!(chat_of(&h[1]), (ChatRole::Model, "Par".to_string()));
    assert!(!app.generating());
    assert_eq!(app.streaming_target(), None);
    assert_eq!(app.status().as_deref(), Some("connection reset"));
}

#[test]
fn stale_chunk_is_ignored() {
    let mut app = new_app();
    app.handle_event(chunk("late")).unwrap();
    assert_eq!(app.context().get_history().len(), 0);
    assert_eq!(app.streaming_target(), None);
}

#[test]
fn overlay_toggle_then_dismiss() {
    let mut app = new_app();
    app.handle_event(press(KeyCode::Tab, KeyModifiers::none())).unwrap();
    assert_eq!(app.popover(), Some(Popover::LlmToolList));
    assert_eq!(app.tool_selected(), 0);
    app.handle_event(press(KeyCode::Enter, KeyModifiers::none())).unwrap();
    assert!(app.tools().search);
    app.handle_event(press(KeyCode::Esc, KeyModifiers::none())).unwrap();
    assert_eq!(app.popover(), None);
    assert!(app.tools().search);
}

#[test]
fn overlay_swallows_other_keys() {
    let mut app = new_app();
    app.handle_event(press(KeyCode::Tab, KeyModifiers::none())).unwrap();
    let action = app
        .handle_event(press(KeyCode::Char('x'), KeyModifiers::none()))
        .unwrap();
    assert!(matches!(action, Action::Nothing));
    app.handle_event(press(KeyCode::Up, KeyModifiers::control())).unwrap();
    assert_eq!(app.selected_zone(), SelectedZone::TextInput);
    app.handle_event(press(KeyCode::Down, KeyModifiers::none())).unwrap();
    assert_eq!(app.tool_selected(), 0);
    app.handle_event(press(KeyCode::Char('c'), KeyModifiers::control())).unwrap();
    assert!(app.should_exit());
}

#[test]
fn toggling_twice_restores_flag() {
    let mut t = LLMTools { search: false };
    t.toggle(llcli::tools::LlmToolEnum::Search);
    assert!(t.search);
    t.toggle(llcli::tools::LlmToolEnum::Search);
    assert!(!t.search);
}

#[test]
fn scroll_down_in_history_is_clamped() {
    let mut app = new_app();
    app.handle_event(press(KeyCode::Down, KeyModifiers::control())).unwrap();
    assert_eq!(app.selected_zone(), SelectedZone::ChatHistory);
    app.set_content_height(2);
    app.handle_event(press(KeyCode::Down, KeyModifiers::none())).unwrap();
    assert_eq!(app.scroll_offset(), 1);
    app.handle_event(press(KeyCode::Char('j'), KeyModifiers::none())).unwrap();
    assert_eq!(app.scroll_offset(), 2);
    app.handle_event(press(KeyCode::Down, KeyModifiers::none())).unwrap();
    assert_eq!(app.scroll_offset(), 2);
    app.handle_event(press(KeyCode::Up, KeyModifiers::none())).unwrap();
    assert_eq!(app.scroll_offset(), 1);
    app.set_content_height(0);
    assert_eq!(app.scroll_offset(), 0);
}

#[test]
fn content_height_follows_transcript() {
    let mut app = new_app();
    app.set_draft("one two three".to_string());
    app.handle_event(submit_key()).unwrap();
    app.update_content_height(8);
    assert_eq!(app.content_height(), 4);
}

#[test]
fn text_input_passes_keys_to_editor() {
    let mut app = new_app();
    let action = app
        .handle_event(press(KeyCode::Char('a'), KeyModifiers::none()))
        .unwrap();
    assert!(matches!(action, Action::EditDraft));
    let action = app.handle_event(press(KeyCode::Down, KeyModifiers::none())).unwrap();
    assert!(matches!(action, Action::EditDraft));
    assert_eq!(app.scroll_offset(), 0);
}

#[test]
fn key_release_is_ignored() {
    let mut app = new_app();
    let ev = Event::Key(KeyEvent {
        code: KeyCode::Char('q'),
        modifiers: KeyModifiers::control(),
        kind: KeyEventKind::Release,
    });
    app.handle_event(ev).unwrap();
    assert!(!app.should_exit());
}

#[test]
fn io_error_is_fatal() {
    let mut app = new_app();
    let r = app.handle_event(Event::IoError("tty gone".to_string()));
    match r {
        Err(SessionError::Terminal(c)) => assert_eq!(c, "tty gone"),
        _ => panic!("expected a terminal failure"),
    }
    assert!(app.should_exit());
}

#[test]
fn window_change_swaps_focus() {
    let mut app = new_app();
    app.handle_event(press(KeyCode::Char('k'), KeyModifiers::control())).unwrap();
    assert_eq!(app.selected_zone(), SelectedZone::ChatHistory);
    app.handle_event(press(KeyCode::Char('j'), KeyModifiers::control())).unwrap();
    assert_eq!(app.selected_zone(), SelectedZone::TextInput);
}

#[test]
fn classify_precedence() {
    assert_eq!(
        classify(Input::Quit, SelectedZone::ChatHistory, None),
        Command::Quit
    );
    assert_eq!(
        classify(Input::ScrollDown, SelectedZone::ChatHistory, None),
        Command::ScrollDown
    );
    assert_eq!(
        classify(Input::ScrollDown, SelectedZone::TextInput, None),
        Command::Edit
    );
    assert_eq!(
        classify(Input::Submit, SelectedZone::TextInput, None),
        Command::Submit
    );
    assert_eq!(
        classify(Input::Submit, SelectedZone::TextInput, Some(Popover::LlmToolList)),
        Command::Ignore
    );
    assert_eq!(
        classify(Input::ToggleLlmOptions, SelectedZone::ChatHistory, None),
        Command::OpenToolOptions
    );
    assert_eq!(
        classify(Input::Unbound, SelectedZone::ChatHistory, None),
        Command::Ignore
    );
}

#[test]
fn key_bindings() {
    let ctrl = KeyModifiers::control();
    let none = KeyModifiers::none();
    let shift = KeyModifiers { bits: 1 };
    assert_eq!(Input::from(KeyEvent::press(KeyCode::Char('q'), ctrl)), Input::Quit);
    assert_eq!(Input::from(KeyEvent::press(KeyCode::Char('c'), ctrl)), Input::Quit);
    assert_eq!(Input::from(KeyEvent::press(KeyCode::Up, ctrl)), Input::ChangeWindowUp);
    assert_eq!(Input::from(KeyEvent::press(KeyCode::Char('j'), ctrl)), Input::ChangeWindowDown);
    assert_eq!(Input::from(KeyEvent::press(KeyCode::Char('k'), none)), Input::ScrollUp);
    assert_eq!(Input::from(KeyEvent::press(KeyCode::Down, none)), Input::ScrollDown);
    assert_eq!(Input::from(KeyEvent::press(KeyCode::Enter, shift)), Input::Toggle);
    assert_eq!(Input::from(KeyEvent::press(KeyCode::Char('s'), ctrl)), Input::Submit);
    assert_eq!(Input::from(KeyEvent::press(KeyCode::Tab, none)), Input::ToggleLlmOptions);
    assert_eq!(Input::from(KeyEvent::press(KeyCode::Esc, ctrl)), Input::Back);
    assert_eq!(Input::from(KeyEvent::press(KeyCode::Char('q'), none)), Input::Unbound);
    assert_eq!(Input::from(KeyEvent::press(KeyCode::Up, shift)), Input::Unbound);
}
