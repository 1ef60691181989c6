use copal::bridge::begin_chat_turn;
use copal::bridge::run_bridge;
use copal::bridge::BridgeCommand;
use copal::bridge::BridgeState;
use copal::bridge::ChatRequest;
use copal::bridge::SseEventData;
use copal::history::Role;
use copal::store::AppState;
use copal::translator::translate_all;
use copal::translator::translate_item;
use copal::translator::ChatStreamEvent;
use copal::translator::ProviderStreamItem;

// --- translator ---

#[test]
fn test_translate_item_covers_every_kind() {
    let text = translate_item(&ProviderStreamItem::TextDelta("hi".to_string()));
    assert!(matches!(text, Some(ChatStreamEvent::TextDelta(t)) if t == "hi"));

    let done = translate_item(&ProviderStreamItem::FinalResponse);
    assert!(matches!(done, Some(ChatStreamEvent::Done)));

    let err = translate_item(&ProviderStreamItem::Failure("boom".to_string()));
    assert!(matches!(err, Some(ChatStreamEvent::Error(m)) if m == "boom"));

    let other = translate_item(&ProviderStreamItem::Other);
    assert!(other.is_none());
}

#[test]
fn test_translate_two_texts_then_failure() {
    // Two text items followed by one failure: exactly TextDelta, TextDelta,
    // Error, and the stream ends there
    let items = vec![
        ProviderStreamItem::TextDelta("a".to_string()),
        ProviderStreamItem::TextDelta("b".to_string()),
        ProviderStreamItem::Failure("boom".to_string()),
        ProviderStreamItem::TextDelta("after the end".to_string()),
    ];

    let events = translate_all(&items);

    assert_eq!(events.len(), 3);
    assert!(matches!(&events[0], ChatStreamEvent::TextDelta(t) if t == "a"));
    assert!(matches!(&events[1], ChatStreamEvent::TextDelta(t) if t == "b"));
    assert!(matches!(&events[2], ChatStreamEvent::Error(m) if m == "boom"));
}

#[test]
fn test_translate_drops_tool_chatter() {
    let items = vec![
        ProviderStreamItem::Other,
        ProviderStreamItem::TextDelta("kept".to_string()),
        ProviderStreamItem::Other,
        ProviderStreamItem::FinalResponse,
    ];

    let events = translate_all(&items);

    assert_eq!(events.len(), 2);
    assert!(matches!(&events[0], ChatStreamEvent::TextDelta(t) if t == "kept"));
    assert!(matches!(&events[1], ChatStreamEvent::Done));
}

#[test]
fn test_translate_missing_terminal_is_an_implicit_error() {
    let items = vec![ProviderStreamItem::TextDelta("cut off".to_string())];

    let events = translate_all(&items);

    assert_eq!(events.len(), 2);
    assert!(matches!(&events[0], ChatStreamEvent::TextDelta(t) if t == "cut off"));
    assert!(
        matches!(&events[1], ChatStreamEvent::Error(m) if m == "provider stream ended without completion")
    );
}

// --- bridge ---

#[test]
fn test_bridge_step_accumulates_and_completes() {
    let mut st = BridgeState::new();

    let first = st.step(ChatStreamEvent::TextDelta("Hi".to_string()), "sid");
    assert!(matches!(first, BridgeCommand::Emit(SseEventData::Text { content }) if content == "Hi"));

    let second = st.step(ChatStreamEvent::TextDelta(" there".to_string()), "sid");
    assert!(
        matches!(second, BridgeCommand::Emit(SseEventData::Text { content }) if content == " there")
    );

    let done = st.step(ChatStreamEvent::Done, "sid");
    match done {
        BridgeCommand::Complete(text, SseEventData::Done { session_id }) => {
            assert_eq!(text, "Hi there");
            assert_eq!(session_id, "sid");
        }
        _ => panic!("expected Complete with a Done frame"),
    }
}

#[test]
fn test_bridge_step_fails_without_persisting() {
    let mut st = BridgeState::new();
    st.step(ChatStreamEvent::TextDelta("partial".to_string()), "sid");

    let failed = st.step(ChatStreamEvent::Error("boom".to_string()), "sid");
    assert!(
        matches!(failed, BridgeCommand::Fail(SseEventData::Error { message }) if message == "boom")
    );
}

#[test]
fn test_end_to_end_scenario() {
    // Create a session, send "hello"; the model stream yields two text
    // deltas and the final response; the client sees text, text, done, and
    // the history afterwards holds the user turn and the joined reply.
    let mut store = AppState::new();
    let session_id = store.create_session();

    let request =
        ChatRequest { session_id: Some(session_id.clone()), message: "hello".to_string() };
    let id = begin_chat_turn(&mut store, &request);
    assert_eq!(id, session_id);

    let items = vec![
        ProviderStreamItem::TextDelta("Hi".to_string()),
        ProviderStreamItem::TextDelta(" there".to_string()),
        ProviderStreamItem::FinalResponse,
    ];
    let events = translate_all(&items);
    let frames = run_bridge(&mut store, &id, &events, 100);

    assert_eq!(frames.len(), 3);
    assert!(matches!(&frames[0], SseEventData::Text { content } if content == "Hi"));
    assert!(matches!(&frames[1], SseEventData::Text { content } if content == " there"));
    assert!(matches!(&frames[2], SseEventData::Done { session_id: s } if *s == session_id));

    let history = store.get_session(&session_id).unwrap();
    assert_eq!(history.len(), 2);
    let messages = history.as_slice();
    assert!(matches!(messages[0].role, Role::User));
    assert_eq!(messages[0].content, "hello");
    assert!(matches!(messages[1].role, Role::Assistant));
    assert_eq!(messages[1].content, "Hi there");
}

#[test]
fn test_disconnect_scenario() {
    // Same setup, but the delivery channel closes after the first text
    // frame: no done frame is produced and the assistant turn is not
    // persisted.
    let mut store = AppState::new();
    let session_id = store.create_session();

    let request =
        ChatRequest { session_id: Some(session_id.clone()), message: "hello".to_string() };
    let id = begin_chat_turn(&mut store, &request);

    let items = vec![
        ProviderStreamItem::TextDelta("Hi".to_string()),
        ProviderStreamItem::TextDelta(" there".to_string()),
        ProviderStreamItem::FinalResponse,
    ];
    let events = translate_all(&items);
    let frames = run_bridge(&mut store, &id, &events, 1);

    assert_eq!(frames.len(), 1);
    assert!(matches!(&frames[0], SseEventData::Text { content } if content == "Hi"));

    let history = store.get_session(&session_id).unwrap();
    assert_eq!(history.len(), 1);
    assert!(matches!(history.as_slice()[0].role, Role::User));
}

#[test]
fn test_error_event_is_forwarded_and_not_persisted() {
    let mut store = AppState::new();
    let session_id = store.create_session();
    store.add_user_message(&session_id, "hello");

    let events = vec![
        ChatStreamEvent::TextDelta("partial".to_string()),
        ChatStreamEvent::Error("provider fault".to_string()),
    ];
    let frames = run_bridge(&mut store, &session_id, &events, 100);

    assert_eq!(frames.len(), 2);
    assert!(matches!(&frames[1], SseEventData::Error { message } if message == "provider fault"));

    // the partially accumulated turn is lost on purpose
    assert_eq!(store.get_session(&session_id).unwrap().len(), 1);
}

#[test]
fn test_begin_chat_turn_creates_session_when_none_given() {
    let mut store = AppState::new();

    let request = ChatRequest { session_id: None, message: "hello".to_string() };
    let id = begin_chat_turn(&mut store, &request);

    assert_eq!(id.chars().count(), 36);
    let history = store.get_session(&id).unwrap();
    assert_eq!(history.len(), 1);
    assert_eq!(history.as_slice()[0].content, "hello");
}
