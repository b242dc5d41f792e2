//! Decoding of one server-sent event payload into assistant text deltas.
//!
//! A payload is either the end-of-stream sentinel, a JSON object of the
//! remote service's incremental-chunk shape, or garbage. The JSON parsing
//! is the outside crate's work; each question asked of the parsed
//! document — is this field a string, how many choices are there, what
//! text does this delta carry — has a name, and the trusted item behind
//! it answers by parsing the payload afresh and reading just that field.
//! Which questions make a payload well-shaped, and which deltas a
//! well-shaped payload hands over, is decided and proved here.

use vstd::prelude::*;

verus! {

/// The literal payload value that signals natural end of stream.
pub const STREAM_SENTINEL: &'static str = "[DONE]";

/// The text of the top-level field under `key`, when the payload parses
/// as a JSON document in which that field holds a string; nothing
/// otherwise. A function of the payload and key alone.
pub uninterp spec fn json_text_field(s: Seq<char>, key: Seq<char>) -> Option<Seq<char>>;

/// Relies on serde_json::from_str::<Value>, Value::get and Value::as_str:
/// parses the payload and reads the top-level string field under `key`.
#[verifier::external_body]
fn payload_text_field(data: &str, key: &str) -> (r: Option<String>)
    ensures
        r.deep_view() == json_text_field(data@, key@),
{
    match serde_json::from_str::<serde_json::Value>(data) {
        Ok(v) => match v.get(key) {
            Some(f) => f.as_str().map(String::from),
            None => None,
        },
        Err(_) => None,
    }
}

/// Whether the payload parses and its top-level field under `key` is an
/// integer representable in signed 64 bits.
pub uninterp spec fn json_int_field(s: Seq<char>, key: Seq<char>) -> bool;

/// Relies on serde_json::from_str::<Value>, Value::get and Value::is_i64:
/// parses the payload and tests the kind of the field under `key`.
#[verifier::external_body]
fn payload_int_field(data: &str, key: &str) -> (r: bool)
    ensures
        r == json_int_field(data@, key@),
{
    match serde_json::from_str::<serde_json::Value>(data) {
        Ok(v) => match v.get(key) {
            Some(f) => f.is_i64(),
            None => false,
        },
        Err(_) => false,
    }
}

/// Whether the payload parses and its top-level field under `key` is
/// absent, null or a string — the shape of the chunk's optional fields.
pub uninterp spec fn json_optional_text_field(s: Seq<char>, key: Seq<char>) -> bool;

/// Relies on serde_json::from_str::<Value>, Value::get, Value::is_string
/// and Value::is_null: parses the payload and tests the optional field
/// under `key`.
#[verifier::external_body]
fn payload_optional_text_field(data: &str, key: &str) -> (r: bool)
    ensures
        r == json_optional_text_field(data@, key@),
{
    match serde_json::from_str::<serde_json::Value>(data) {
        Ok(v) => match v.get(key) {
            Some(f) => f.is_string() || f.is_null(),
            None => true,
        },
        Err(_) => false,
    }
}

/// The number of elements of the top-level array field under `key`, when
/// the payload parses and that field is an array; nothing otherwise.
pub uninterp spec fn json_array_len(s: Seq<char>, key: Seq<char>) -> Option<usize>;

/// Relies on serde_json::from_str::<Value>, Value::get and
/// Value::as_array: parses the payload and counts the array under `key`.
#[verifier::external_body]
fn payload_array_len(data: &str, key: &str) -> (r: Option<usize>)
    ensures
        r == json_array_len(data@, key@),
{
    match serde_json::from_str::<serde_json::Value>(data) {
        Ok(v) => match v.get(key) {
            Some(f) => f.as_array().map(Vec::len),
            None => None,
        },
        Err(_) => None,
    }
}

/// Whether element `i` of the top-level array under `arr` exists and has
/// a field under `key` holding an integer representable in unsigned 64
/// bits.
pub uninterp spec fn json_item_uint_ok(s: Seq<char>, arr: Seq<char>, i: int, key: Seq<char>) -> bool;

/// Relies on serde_json::from_str::<Value>, Value::get, Value::as_array,
/// slice indexing and Value::is_u64: reads one element of the array under
/// `arr` and tests the kind of its field under `key`.
#[verifier::external_body]
fn payload_item_uint_ok(data: &str, arr: &str, i: usize, key: &str) -> (r: bool)
    ensures
        r == json_item_uint_ok(data@, arr@, i as int, key@),
{
    let v = match serde_json::from_str::<serde_json::Value>(data) { Ok(v) => v, Err(_) => return false };
    let items = match v.get(arr) { Some(f) => f.as_array(), None => None };
    let item = match items { Some(a) => a.get(i), None => None };
    match item {
        Some(c) => match c.get(key) { Some(f) => f.is_u64(), None => false },
        None => false,
    }
}

/// Whether element `i` of the top-level array under `arr` exists and its
/// field under `key` is absent, null or a string.
pub uninterp spec fn json_item_optional_text(s: Seq<char>, arr: Seq<char>, i: int, key: Seq<char>) -> bool;

/// Relies on serde_json::from_str::<Value>, Value::get, Value::as_array,
/// slice indexing, Value::is_string and Value::is_null: reads one element
/// of the array under `arr` and tests its optional field under `key`.
#[verifier::external_body]
fn payload_item_optional_text(data: &str, arr: &str, i: usize, key: &str) -> (r: bool)
    ensures
        r == json_item_optional_text(data@, arr@, i as int, key@),
{
    let v = match serde_json::from_str::<serde_json::Value>(data) { Ok(v) => v, Err(_) => return false };
    let items = match v.get(arr) { Some(f) => f.as_array(), None => None };
    let item = match items { Some(a) => a.get(i), None => None };
    match item {
        Some(c) => match c.get(key) { Some(f) => f.is_string() || f.is_null(), None => true },
        None => false,
    }
}

/// Whether element `i` of the top-level array under `arr` exists, its
/// field under `obj` is an object, and that object's field under `key`
/// is absent, null or a string.
pub uninterp spec fn json_item_object_optional_text(
    s: Seq<char>,
    arr: Seq<char>,
    i: int,
    obj: Seq<char>,
    key: Seq<char>,
) -> bool;

/// Relies on serde_json::from_str::<Value>, Value::get, Value::as_array,
/// slice indexing, Value::is_object, Value::is_string and Value::is_null:
/// descends into the object under `obj` of one array element and tests
/// its optional field under `key`.
#[verifier::external_body]
fn payload_item_object_optional_text(
    data: &str,
    arr: &str,
    i: usize,
    obj: &str,
    key: &str,
) -> (r: bool)
    ensures
        r == json_item_object_optional_text(data@, arr@, i as int, obj@, key@),
{
    let v = match serde_json::from_str::<serde_json::Value>(data) { Ok(v) => v, Err(_) => return false };
    let items = match v.get(arr) { Some(f) => f.as_array(), None => None };
    let item = match items { Some(a) => a.get(i), None => None };
    let o = match item { Some(c) => c.get(obj), None => return false };
    match o {
        Some(o) if o.is_object() => match o.get(key) {
            Some(f) => f.is_string() || f.is_null(),
            None => true,
        },
        _ => false,
    }
}

/// The text carried by the field under `key` of the object under `obj`
/// of element `i` of the top-level array under `arr`:
/// `Some(Some(text))` for a string, `Some(None)` for an absent or null
/// field, nothing when the element, the object or the payload is not
/// shaped that way.
pub uninterp spec fn json_item_object_text(
    s: Seq<char>,
    arr: Seq<char>,
    i: int,
    obj: Seq<char>,
    key: Seq<char>,
) -> Option<Option<Seq<char>>>;

/// Relies on serde_json::from_str::<Value>, Value::get, Value::as_array,
/// slice indexing, Value::as_str and Value::is_null: descends into the
/// object under `obj` of one array element and reads its text field
/// under `key`.
#[verifier::external_body]
fn payload_item_object_text(
    data: &str,
    arr: &str,
    i: usize,
    obj: &str,
    key: &str,
) -> (r: Option<Option<String>>)
    ensures
        r.deep_view() == json_item_object_text(data@, arr@, i as int, obj@, key@),
{
    let v = match serde_json::from_str::<serde_json::Value>(data) { Ok(v) => v, Err(_) => return None };
    let items = match v.get(arr) { Some(f) => f.as_array(), None => None };
    let item = match items { Some(a) => a.get(i), None => None };
    let o = match item { Some(c) => c.get(obj), None => return None };
    let o = match o { Some(o) => o, None => return None };
    match o.get(key) {
        Some(f) => match f.as_str() {
            Some(s) => Some(Some(String::from(s))),
            None => if f.is_null() { Some(None) } else { None },
        },
        None => Some(None),
    }
}

/// Whether one element of the chunk's choice array is shaped like a
/// choice: an unsigned `index`, an optional-text `finish_reason`, a
/// `delta` object with an optional-text `role`, and a `content` that is
/// a string, null or absent.
pub open spec fn choice_shape_ok(s: Seq<char>, i: int) -> bool {
    &&& json_item_uint_ok(s, "choices"@, i, "index"@)
    &&& json_item_optional_text(s, "choices"@, i, "finish_reason"@)
    &&& json_item_object_optional_text(s, "choices"@, i, "delta"@, "role"@)
    &&& json_item_object_text(s, "choices"@, i, "delta"@, "content"@) is Some
}

/// Whether a payload has the chunk shape of the wire contract: string
/// `id`, `object` and `model`, an integer `created`, an optional-text
/// `system_fingerprint`, and an array of well-shaped `choices`.
pub open spec fn chunk_shape_ok(s: Seq<char>) -> bool {
    &&& json_text_field(s, "id"@) is Some
    &&& json_text_field(s, "object"@) is Some
    &&& json_text_field(s, "model"@) is Some
    &&& json_int_field(s, "created"@)
    &&& json_optional_text_field(s, "system_fingerprint"@)
    &&& json_array_len(s, "choices"@) is Some
    &&& (forall|i: int|
        0 <= i < json_array_len(s, "choices"@)->0 ==> choice_shape_ok(s, i))
}

/// The delta text of each choice of a well-shaped chunk, in choice order.
pub open spec fn chunk_contents(s: Seq<char>) -> Seq<Option<Seq<char>>> {
    Seq::new(
        json_array_len(s, "choices"@)->0 as nat,
        |i: int| json_item_object_text(s, "choices"@, i, "delta"@, "content"@)->0,
    )
}

/// The text deltas named in `cs`, kept in order; absent ones (role-only
/// preambles, terminal markers) are skipped, not forwarded.
pub open spec fn present(cs: Seq<Option<Seq<char>>>) -> Seq<Seq<char>>
    decreases cs.len(),
{
    if cs.len() == 0 {
        Seq::empty()
    } else {
        match cs.last() {
            Some(s) => present(cs.drop_last()).push(s),
            None => present(cs.drop_last()),
        }
    }
}

/// Keeps exactly the deltas that carry text, in their original order.
pub fn present_contents(cs: Vec<Option<String>>) -> (r: Vec<String>)
    ensures
        r.deep_view() == present(cs.deep_view()),
{
    let mut out: Vec<String> = Vec::new();
    let mut i: usize = 0;
    while i < cs.len()
        invariant
            i <= cs.len(),
            out.deep_view() == present(cs.deep_view().take(i as int)),
        decreases cs.len() - i,
    {
        match &cs[i] {
            Some(s) => out.push(s.clone()),
            None => (),
        }
        i = i + 1;
        proof {
            assert(cs.deep_view().take(i as int).drop_last() =~= cs.deep_view().take(
                i as int - 1,
            ));
            assert(cs.deep_view().take(i as int).last() == cs.deep_view()[i as int - 1]);
        }
    }
    proof {
        assert(cs.deep_view().take(cs.len() as int) =~= cs.deep_view());
    }
    out
}

/// A choice that is not shaped like a choice spoils the whole chunk.
proof fn lemma_bad_choice_spoils_shape(s: Seq<char>, i: int)
    requires
        json_array_len(s, "choices"@) is Some,
        0 <= i < json_array_len(s, "choices"@)->0,
        !choice_shape_ok(s, i),
    ensures
        !chunk_shape_ok(s),
{
}

/// What decoding one payload yields.
#[derive(Debug)]
pub enum Decoded {
    /// The payload was the end-of-stream sentinel: no tokens, no error.
    Done,
    /// A well-shaped chunk: its text deltas, in order.
    Tokens(Vec<String>),
    /// Neither the sentinel nor a well-shaped chunk: to be logged and skipped.
    Malformed,
}

/// Decodes one event payload. The sentinel — and nothing else — yields
/// `Done`; exactly the payloads of the chunk shape yield `Tokens`, with
/// the text deltas of their choices in order; anything else is
/// `Malformed`.
pub fn decode_payload(data: &str) -> (r: Decoded)
    ensures
        (r is Done) <==> data@ == STREAM_SENTINEL@,
        data@ != STREAM_SENTINEL@ ==> ((r is Tokens) <==> chunk_shape_ok(data@)),
        r matches Decoded::Tokens(ts) ==> ts.deep_view() == present(chunk_contents(data@)),
{
    if data.to_owned() == String::from_str(STREAM_SENTINEL) {
        return Decoded::Done;
    }
    if payload_text_field(data, "id").is_none() {
        return Decoded::Malformed;
    }
    if payload_text_field(data, "object").is_none() {
        return Decoded::Malformed;
    }
    if payload_text_field(data, "model").is_none() {
        return Decoded::Malformed;
    }
    if !payload_int_field(data, "created") {
        return Decoded::Malformed;
    }
    if !payload_optional_text_field(data, "system_fingerprint") {
        return Decoded::Malformed;
    }
    let count = match payload_array_len(data, "choices") {
        Some(c) => c,
        None => {
            return Decoded::Malformed;
        },
    };
    let mut deltas: Vec<Option<String>> = Vec::new();
    let mut i: usize = 0;
    while i < count
        invariant
            data@ != STREAM_SENTINEL@,
            json_text_field(data@, "id"@) is Some,
            json_text_field(data@, "object"@) is Some,
            json_text_field(data@, "model"@) is Some,
            json_int_field(data@, "created"@),
            json_optional_text_field(data@, "system_fingerprint"@),
            json_array_len(data@, "choices"@) == Some(count),
            i <= count,
            forall|j: int| 0 <= j < i ==> choice_shape_ok(data@, j),
            deltas.deep_view() == chunk_contents(data@).take(i as int),
        decreases count - i,
    {
        if !payload_item_uint_ok(data, "choices", i, "index") {
            proof {
                lemma_bad_choice_spoils_shape(data@, i as int);
            }
            return Decoded::Malformed;
        }
        if !payload_item_optional_text(data, "choices", i, "finish_reason") {
            proof {
                lemma_bad_choice_spoils_shape(data@, i as int);
            }
            return Decoded::Malformed;
        }
        if !payload_item_object_optional_text(data, "choices", i, "delta", "role") {
            proof {
                lemma_bad_choice_spoils_shape(data@, i as int);
            }
            return Decoded::Malformed;
        }
        let content_r = payload_item_object_text(data, "choices", i, "delta", "content");
        let content = match content_r {
            Some(c) => c,
            None => {
                proof {
                    lemma_bad_choice_spoils_shape(data@, i as int);
                }
                return Decoded::Malformed;
            },
        };
        let ghost before = deltas.deep_view();
        deltas.push(content);
        i = i + 1;
        proof {
            assert(content.deep_view() == json_item_object_text(
                data@,
                "choices"@,
                i as int - 1,
                "delta"@,
                "content"@,
            )->0);
            assert(deltas.deep_view() =~= before.push(content.deep_view()));
            assert(deltas.deep_view() =~= chunk_contents(data@).take(i as int));
        }
    }
    proof {
        assert(chunk_contents(data@).take(count as int) =~= chunk_contents(data@));
        assert(chunk_shape_ok(data@));
    }
    Decoded::Tokens(present_contents(deltas))
}

} // verus!
