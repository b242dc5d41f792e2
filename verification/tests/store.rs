use rgpt::store::{MessageStore, Role, UseContext, BASIC_CONTEXT, NO_REPEAT, PROGRAMMING};

#[test]
fn new_store_holds_default_context() {
    let store = MessageStore::new(UseContext::Programming);
    let snap = store.snapshot();
    assert_eq!(snap.len(), 1);
    assert_eq!(snap[0].role, Role::System);
    assert_eq!(snap[0].content, PROGRAMMING);
}

#[test]
fn clear_keeps_exactly_one_message() {
    let mut store = MessageStore::new(UseContext::Basic);
    store.append_user(String::from("first question"));
    store.append_assistant(String::from("first answer"));
    store.append_user(String::from("second question"));
    assert_eq!(store.snapshot().len(), 4);
    store.clear();
    let snap = store.snapshot();
    assert_eq!(snap.len(), 1);
    assert_eq!(snap[0].role, Role::System);
    assert_eq!(snap[0].content, BASIC_CONTEXT);
}

#[test]
fn second_context_switch_wins_after_clear() {
    let mut store = MessageStore::new(UseContext::Basic);
    store.switch_context(UseContext::Programming);
    store.switch_context(UseContext::Short);
    store.clear();
    let snap = store.snapshot();
    assert_eq!(snap.len(), 1);
    assert_eq!(snap[0].role, Role::System);
    assert_eq!(snap[0].content, NO_REPEAT);
    assert_ne!(snap[0].content, PROGRAMMING);
}

#[test]
fn appends_keep_order_and_empty_text_is_legal() {
    let mut store = MessageStore::new(UseContext::Short);
    store.append_user(String::new());
    store.append_assistant(String::from("answer"));
    let snap = store.snapshot();
    assert_eq!(snap.len(), 3);
    assert_eq!(snap[1].role, Role::User);
    assert_eq!(snap[1].content, "");
    assert_eq!(snap[2].role, Role::Assistant);
    assert_eq!(snap[2].content, "answer");
}

#[test]
fn switch_context_appends_without_removing_history() {
    let mut store = MessageStore::new(UseContext::Basic);
    store.append_user(String::from("hi"));
    store.switch_context(UseContext::Short);
    let snap = store.snapshot();
    assert_eq!(snap.len(), 3);
    assert_eq!(snap[2].role, Role::System);
    assert_eq!(snap[2].content, NO_REPEAT);
}
