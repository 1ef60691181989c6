use copal::history::ConversationHistory;
use copal::history::Role;
use copal::history::DEFAULT_MAX_TURNS;

#[test]
fn test_new_creates_empty_history() {
    let sut = ConversationHistory::new(2);
    assert!(sut.is_empty());
    assert_eq!(sut.max_turns(), 2);
}

#[test]
fn test_new_creates_when_max_turns_is_at_maximum() {
    let sut = ConversationHistory::new(DEFAULT_MAX_TURNS);
    assert_eq!(sut.max_turns(), DEFAULT_MAX_TURNS);
}

#[test]
fn test_new_creates_when_exceeding_the_maximum_max_turns() {
    let sut = ConversationHistory::new(DEFAULT_MAX_TURNS + 1);
    assert_eq!(sut.max_turns(), DEFAULT_MAX_TURNS);
}

#[test]
fn test_add_user_message() {
    let mut sut = ConversationHistory::new(2);
    sut.add_user("hello1");
    sut.add_user("hello2");
    sut.add_user("hello3");

    assert_eq!(sut.len(), 3);
}

#[test]
fn test_add_assistant_message() {
    let mut sut = ConversationHistory::new(2);
    sut.add_assistant("hello1");
    sut.add_assistant("hello2");
    sut.add_assistant("hello3");

    assert_eq!(sut.len(), 3);
}

#[test]
fn test_trim_removes_oldest_when_exceeding_max() {
    let mut sut = ConversationHistory::new(2);
    sut.add_user("user1");
    sut.add_assistant("assistant1");
    sut.add_user("user2");
    sut.add_assistant("assistant2");

    sut.add_user("user3");

    assert_eq!(sut.len(), 3);
}

#[test]
fn test_trim_preserves_newest_messages() {
    let mut sut = ConversationHistory::new(2);
    sut.add_user("user1");
    sut.add_assistant("assistant1");
    sut.add_user("user2");
    sut.add_assistant("assistant2");
    sut.add_user("user3");
    sut.add_assistant("assistant3");

    // After adding 3 turns with max_turns=2, the oldest turn is gone
    assert_eq!(sut.len(), 4);

    // Verify the alternation: user1/assistant1 should be gone
    let messages = sut.as_slice();
    assert!(matches!(messages[0].role, Role::User));
    assert!(matches!(messages[1].role, Role::Assistant));
    assert!(matches!(messages[2].role, Role::User));
    assert!(matches!(messages[3].role, Role::Assistant));

    assert_eq!(messages[0].content, "user2");
    assert_eq!(messages[1].content, "assistant2");
    assert_eq!(messages[2].content, "user3");
    assert_eq!(messages[3].content, "assistant3");
}

#[test]
fn test_zero_max_turns_keeps_history_empty() {
    let mut sut = ConversationHistory::new(0);
    sut.add_user("user1");
    assert_eq!(sut.len(), 0);
    sut.add_assistant("assistant1");
    assert_eq!(sut.len(), 0);
}

#[test]
fn test_to_vec_returns_independent_copy() {
    let mut sut = ConversationHistory::new(2);
    sut.add_user("hello");

    let mut copied = sut.to_vec();
    assert_eq!(copied.len(), 1);
    assert_eq!(copied[0].content, "hello");
    copied.clear();

    assert_eq!(sut.len(), 1);
}

#[test]
fn test_to_snapshot_returns_independent_copy() {
    let mut sut = ConversationHistory::new(2);
    sut.add_user("hello");

    let mut snapshot = sut.to_snapshot();
    snapshot.add_user("only in the snapshot");

    assert_eq!(snapshot.len(), 2);
    assert_eq!(sut.len(), 1);
}
