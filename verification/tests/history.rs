use rig_code::history::{ConversationTurn, History, Role};

fn user(content: &str) -> ConversationTurn {
    ConversationTurn { role: Role::User, content: String::from(content) }
}

fn assistant(content: &str) -> ConversationTurn {
    ConversationTurn { role: Role::Assistant, content: String::from(content) }
}

#[test]
fn a_new_history_is_empty() {
    let history = History::new();
    assert_eq!(history.len(), 0);
    assert!(history.turns().is_empty());
    assert!(history.snapshot().is_empty());
}

#[test]
fn a_turn_with_an_answer_adds_two_entries() {
    let mut history = History::new();
    history.record("what is 2 + 2?", "4");
    assert_eq!(history.len(), 2);
    assert_eq!(history.turns(), &vec![user("what is 2 + 2?"), assistant("4")]);
}

#[test]
fn a_turn_without_an_answer_adds_the_input_only() {
    let mut history = History::new();
    history.record("list the files", "");
    assert_eq!(history.len(), 1);
    assert_eq!(history.turns(), &vec![user("list the files")]);
}

#[test]
fn turns_stay_in_the_order_of_the_conversation() {
    let mut history = History::new();
    history.record("one", "1");
    history.record("two", "");
    history.record("three", "3");
    assert_eq!(
        history.turns(),
        &vec![user("one"), assistant("1"), user("two"), user("three"), assistant("3")]
    );
}

#[test]
fn a_snapshot_is_a_copy() {
    let mut history = History::new();
    history.record("one", "1");
    let mut snapshot = history.snapshot();
    assert_eq!(&snapshot, history.turns());
    snapshot.push(user("not in the history"));
    snapshot[0].content.push_str(" changed");
    assert_eq!(history.turns(), &vec![user("one"), assistant("1")]);
    history.record("two", "2");
    assert_eq!(snapshot.len(), 3);
    assert_eq!(history.len(), 4);
}
