use rgpt::decode::{decode_payload, present_contents, Decoded, STREAM_SENTINEL};

fn tokens_of(d: Decoded) -> Vec<String> {
    match d {
        Decoded::Tokens(ts) => ts,
        other => panic!("expected tokens, got {:?}", other),
    }
}

#[test]
fn test_chunk() {
    let msg = r#"{"id":"chatcmpl-8UdjQUhf7LF0Pw7YFvm2If9QVLiHo","object":"chat.completion.chunk","created":1702313260,"model":"gpt-3.5-turbo-0613","system_fingerprint":null,"choices":[{"index":0,"delta":{"content":"As"},"finish_reason":null}]}"#;
    let parsed = decode_payload(msg);
    assert!(matches!(parsed, Decoded::Tokens(_)), "Error: {}", "payload was not recognized");
}

#[test]
fn literal_chunk_yields_exactly_one_token() {
    let msg = r#"{"id":"x","object":"chat.completion.chunk","created":1,"model":"m","system_fingerprint":null,"choices":[{"index":0,"delta":{"content":"As"},"finish_reason":null}]}"#;
    let ts = tokens_of(decode_payload(msg));
    assert_eq!(ts, vec![String::from("As")]);
}

#[test]
fn sentinel_yields_done_not_an_error() {
    assert!(matches!(decode_payload(STREAM_SENTINEL), Decoded::Done));
    assert!(matches!(decode_payload("[DONE]"), Decoded::Done));
}

#[test]
fn garbage_is_malformed() {
    assert!(matches!(decode_payload("not json at all"), Decoded::Malformed));
    assert!(matches!(decode_payload(""), Decoded::Malformed));
    assert!(matches!(decode_payload("[DONE"), Decoded::Malformed));
}

#[test]
fn missing_required_fields_are_malformed() {
    let no_id = r#"{"object":"chat.completion.chunk","created":1,"model":"m","choices":[]}"#;
    assert!(matches!(decode_payload(no_id), Decoded::Malformed));
    let created_not_a_number = r#"{"id":"x","object":"o","created":"soon","model":"m","choices":[]}"#;
    assert!(matches!(decode_payload(created_not_a_number), Decoded::Malformed));
    let choices_not_an_array = r#"{"id":"x","object":"o","created":1,"model":"m","choices":{}}"#;
    assert!(matches!(decode_payload(choices_not_an_array), Decoded::Malformed));
    let delta_missing = r#"{"id":"x","object":"o","created":1,"model":"m","choices":[{"index":0}]}"#;
    assert!(matches!(decode_payload(delta_missing), Decoded::Malformed));
    let content_not_a_string =
        r#"{"id":"x","object":"o","created":1,"model":"m","choices":[{"index":0,"delta":{"content":7}}]}"#;
    assert!(matches!(decode_payload(content_not_a_string), Decoded::Malformed));
}

#[test]
fn role_only_preamble_yields_zero_tokens() {
    let preamble = r#"{"id":"x","object":"o","created":1,"model":"m","choices":[{"index":0,"delta":{"role":"assistant"},"finish_reason":null}]}"#;
    let ts = tokens_of(decode_payload(preamble));
    assert!(ts.is_empty());
}

#[test]
fn terminal_marker_yields_zero_tokens() {
    let marker = r#"{"id":"x","object":"o","created":1,"model":"m","choices":[{"index":0,"delta":{},"finish_reason":"stop"}]}"#;
    let ts = tokens_of(decode_payload(marker));
    assert!(ts.is_empty());
}

#[test]
fn several_choices_keep_their_order() {
    let two = r#"{"id":"x","object":"o","created":1,"model":"m","choices":[{"index":0,"delta":{"content":"a"}},{"index":1,"delta":{"role":"assistant"}},{"index":2,"delta":{"content":"b"}}]}"#;
    let ts = tokens_of(decode_payload(two));
    assert_eq!(ts, vec![String::from("a"), String::from("b")]);
}

#[test]
fn present_contents_filters_in_order() {
    let cs = vec![
        Some(String::from("a")),
        None,
        Some(String::from("")),
        Some(String::from("b")),
        None,
    ];
    let ts = present_contents(cs);
    assert_eq!(ts, vec![String::from("a"), String::from(""), String::from("b")]);
}
