//! A plain model of decoded JSON documents, and the trusted parser behind
//! it.
//!
//! The RPC returns XDR already decoded into JSON; the decoding rules only
//! ever read a few shapes out of such documents: a field of an object, the
//! text of a string, the rendering of a number. [`JsonValue`] holds exactly
//! that, as plain values; object entries keep the order the parser yields
//! them in.

use vstd::prelude::*;

verus! {

/// Compare a `String` and a string slice by value.
pub(crate) fn string_eq_str(a: &String, b: &str) -> (r: bool)
    ensures
        r == (a@ == b@),
{
    let sb: String = b.to_owned();
    *a == sb
}

/// A JSON number as the parser handed it over: its textual rendering, and
/// its value as an unsigned or signed 64-bit integer where it is one.
#[derive(Debug, PartialEq, Eq)]
pub struct JsonNum {
    /// The parser's canonical rendering; for an integer, its decimal digits.
    pub text: String,
    /// The value as `u64`, for a non-negative integer in range.
    pub uval: Option<u64>,
    /// The value as `i64`, for an integer in range.
    pub ival: Option<i64>,
}

/// A decoded JSON document.
#[derive(Debug, PartialEq, Eq)]
pub enum JsonValue {
    Null,
    Bool(bool),
    Num(JsonNum),
    Text(String),
    Items(Vec<JsonValue>),
    /// An object's fields, in the order the parser yields them.
    Entries(Vec<(String, JsonValue)>),
}

/// The text of a string value, if the value is one.
pub open spec fn as_text(v: JsonValue) -> Option<Seq<char>> {
    match v {
        JsonValue::Text(s) => Some(s@),
        _ => None,
    }
}

/// The first entry named `key` of an object, if any; `None` on any other
/// shape of value.
pub open spec fn field_of(v: JsonValue, key: Seq<char>) -> Option<JsonValue> {
    match v {
        JsonValue::Entries(es) => entry_lookup(es@, key),
        _ => None,
    }
}

pub open spec fn entry_lookup(es: Seq<(String, JsonValue)>, key: Seq<char>) -> Option<JsonValue>
    decreases es,
{
    if es.len() == 0 {
        None
    } else if es[0].0@ == key {
        Some(es[0].1)
    } else {
        entry_lookup(es.skip(1), key)
    }
}

/// Depth-first search for the first field named `key`, as the indexer's
/// fallback extraction does it: a hit on the key decides immediately (its
/// text, or nothing when the value is no string); otherwise the value is
/// searched recursively before moving to the next entry. Only objects are
/// descended into.
pub open spec fn nested_text(v: JsonValue, key: Seq<char>) -> Option<Seq<char>>
    decreases v,
{
    match v {
        JsonValue::Entries(es) => nested_text_entries(es@, key),
        _ => None,
    }
}

pub open spec fn nested_text_entries(es: Seq<(String, JsonValue)>, key: Seq<char>) -> Option<
    Seq<char>,
>
    decreases es,
{
    if es.len() == 0 {
        None
    } else if es[0].0@ == key {
        as_text(es[0].1)
    } else {
        match nested_text(es[0].1, key) {
            Some(found) => Some(found),
            None => nested_text_entries(es.skip(1), key),
        }
    }
}

/// The view of an optional owned string.
pub open spec fn opt_text(o: Option<String>) -> Option<Seq<char>> {
    match o {
        Some(s) => Some(s@),
        None => None,
    }
}

/// The text of a string value.
pub fn json_as_text(v: &JsonValue) -> (r: Option<String>)
    ensures
        opt_text(r) == as_text(*v),
{
    match v {
        JsonValue::Text(s) => Some(s.clone()),
        _ => None,
    }
}

/// The first entry named `key` of an object value.
#[verifier::loop_isolation(false)]
pub fn json_get<'a>(v: &'a JsonValue, key: &str) -> (r: Option<&'a JsonValue>)
    ensures
        match r {
            Some(x) => field_of(*v, key@) == Some(*x),
            None => field_of(*v, key@) == None::<JsonValue>,
        },
{
    match v {
        JsonValue::Entries(es) => {
            let n = es.len();
            let mut i: usize = 0;
            proof {
                assert(es@.skip(0) =~= es@);
            }
            while i < n
                invariant
                    n == es@.len(),
                    i <= n,
                    entry_lookup(es@, key@) == entry_lookup(es@.skip(i as int), key@),
                decreases n - i,
            {
                proof {
                    assert(es@.skip(i as int)[0] == es@[i as int]);
                }
                let pair = &es[i];
                proof {
                    assert(*pair == es@[i as int]);
                }
                if string_eq_str(&pair.0, key) {
                    return Some(&pair.1);
                }
                proof {
                    assert(es@.skip(i as int).skip(1) =~= es@.skip(i + 1 as int));
                }
                i = i + 1;
            }
            proof {
                assert(es@.skip(n as int) =~= Seq::<(String, JsonValue)>::empty());
            }
            None
        },
        _ => None,
    }
}

/// Depth-first search for the first field named `key`; see [`nested_text`].
#[verifier::loop_isolation(false)]
pub fn json_nested_text(v: &JsonValue, key: &str) -> (r: Option<String>)
    ensures
        opt_text(r) == nested_text(*v, key@),
    decreases *v,
{
    match v {
        JsonValue::Entries(es) => {
            let n = es.len();
            let mut i: usize = 0;
            proof {
                assert(es@.skip(0) =~= es@);
            }
            while i < n
                invariant
                    n == es@.len(),
                    i <= n,
                    nested_text_entries(es@, key@) == nested_text_entries(
                        es@.skip(i as int),
                        key@,
                    ),
                decreases n - i,
            {
                proof {
                    assert(es@.skip(i as int)[0] == es@[i as int]);
                }
                let pair = &es[i];
                proof {
                    assert(*pair == es@[i as int]);
                }
                if string_eq_str(&pair.0, key) {
                    return json_as_text(&pair.1);
                }
                proof {
                    assert(*v == JsonValue::Entries(*es));
                    assert(decreases_to!(*v => *es));
                    assert(decreases_to!(*es => es@));
                    assert(decreases_to!(es@ => es@[i as int]));
                    assert(decreases_to!(es@[i as int] => es@[i as int].1));
                    assert(decreases_to!(*v => es@[i as int].1));
                }
                let found = json_nested_text(&pair.1, key);
                if found.is_some() {
                    return found;
                }
                proof {
                    assert(es@.skip(i as int).skip(1) =~= es@.skip(i + 1 as int));
                }
                i = i + 1;
            }
            proof {
                assert(es@.skip(n as int) =~= Seq::<(String, JsonValue)>::empty());
            }
            None
        },
        _ => None,
    }
}

/// What the JSON parser makes of a string: the decoded document, or
/// nothing when the string is no valid JSON.
pub uninterp spec fn json_of(s: Seq<char>) -> Option<JsonValue>;

/// serde_json's own value type, opaque here: it only passes through the
/// trusted glue below.
#[verifier::external_type_specification]
#[verifier::external_body]
pub struct ExJsonValue(serde_json::Value);

/// Rebuild a parsed document as plain values, entry order kept. Trusted
/// glue around the parser: one arm per variant of the parser's value type,
/// moving the data over. A number keeps serde_json's rendering as its
/// text, which for an integer is its plain decimal digits.
#[verifier::external_body]
fn json_view_of(v: &serde_json::Value) -> JsonValue {
    match v {
        serde_json::Value::Null => JsonValue::Null,
        serde_json::Value::Bool(b) => JsonValue::Bool(*b),
        serde_json::Value::Number(n) => JsonValue::Num(
            JsonNum { text: n.to_string(), uval: n.as_u64(), ival: n.as_i64() },
        ),
        serde_json::Value::String(s) => JsonValue::Text(s.clone()),
        serde_json::Value::Array(a) => JsonValue::Items(a.iter().map(json_view_of).collect()),
        serde_json::Value::Object(m) => JsonValue::Entries(
            m.iter().map(|(k, x)| (k.clone(), json_view_of(x))).collect(),
        ),
    }
}

/// Relies on serde_json::from_str: whether and how a string parses as a
/// JSON document is a function of its characters alone.
#[verifier::external_body]
pub fn parse_json(s: &str) -> (r: Option<JsonValue>)
    ensures
        r == json_of(s@),
{
    serde_json::from_str::<serde_json::Value>(s).ok().map(|v| json_view_of(&v))
}

} // verus!
