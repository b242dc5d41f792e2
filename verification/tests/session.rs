use rgpt::session::{Controller, Input};
use rgpt::store::{Role, UseContext, NO_REPEAT, PROGRAMMING};

fn chunk_payload(content: &str) -> String {
    format!(
        r#"{{"id":"x","object":"chat.completion.chunk","created":1,"model":"m","system_fingerprint":null,"choices":[{{"index":0,"delta":{{"content":{}}},"finish_reason":null}}]}}"#,
        serde_json::to_string(content).unwrap()
    )
}

#[test]
fn text_instruction_opens_an_exchange_and_requests() {
    let mut c = Controller::new(UseContext::Programming);
    let request = c.handle_instruction(Input::Text(String::from("hello")));
    assert!(request);
    let snap = c.snapshot();
    assert_eq!(snap.len(), 2);
    assert_eq!(snap[0].role, Role::System);
    assert_eq!(snap[0].content, PROGRAMMING);
    assert_eq!(snap[1].role, Role::User);
    assert_eq!(snap[1].content, "hello");
}

#[test]
fn context_and_clear_do_not_request() {
    let mut c = Controller::new(UseContext::Programming);
    assert!(!c.handle_instruction(Input::Context(UseContext::Short)));
    assert!(!c.handle_instruction(Input::Clear));
    let snap = c.snapshot();
    assert_eq!(snap.len(), 1);
    assert_eq!(snap[0].content, NO_REPEAT);
}

#[test]
fn whole_exchange_accumulates_the_answer() {
    let mut c = Controller::new(UseContext::Basic);
    c.handle_instruction(Input::Text(String::from("hi")));
    for part in ["Hel", "lo", " world"] {
        let payload = chunk_payload(part);
        c.absorb_payload(&payload);
    }
    c.absorb_payload("[DONE]");
    c.end_stream();
    let snap = c.snapshot();
    assert_eq!(snap.len(), 3);
    assert_eq!(snap[2].role, Role::Assistant);
    assert_eq!(snap[2].content, "Hello world");
}

#[test]
fn malformed_payloads_are_skipped_mid_stream() {
    let mut c = Controller::new(UseContext::Basic);
    c.handle_instruction(Input::Text(String::from("hi")));
    c.absorb_payload(&chunk_payload("a"));
    c.absorb_payload("###garbage###");
    c.absorb_payload(&chunk_payload("b"));
    c.end_stream();
    let snap = c.snapshot();
    assert_eq!(snap[2].content, "ab");
}

#[test]
fn empty_stream_appends_an_empty_assistant_message() {
    let mut c = Controller::new(UseContext::Basic);
    c.handle_instruction(Input::Text(String::from("hi")));
    c.end_stream();
    let snap = c.snapshot();
    assert_eq!(snap.len(), 3);
    assert_eq!(snap[2].role, Role::Assistant);
    assert_eq!(snap[2].content, "");
}
