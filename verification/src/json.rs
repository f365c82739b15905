//! The trusted boundary to `serde_json`: parsing an embedded structured-data
//! payload and reading string fields out of its event objects.
//!
//! Parsing is deterministic in the payload text alone, so every read is
//! stated as a named function of that text. A payload holds either a single
//! event object or an array of them; `json_field_str` and `json_field2_str`
//! speak of the `i`-th event object, which is element `i` of the array, or
//! the single parsed value itself for `i == 0`. The handles are built only
//! in this module, so their ghost text always is the text the wrapped value
//! was parsed from.

use vstd::prelude::*;
use crate::text::opt_text;

verus! {

#[verifier::external_type_specification]
#[verifier::external_body]
pub struct ExJsonValue(serde_json::Value);

/// Whether the text is a valid JSON document, per
/// `serde_json::from_str::<Value>`.
pub uninterp spec fn json_parses(text: Seq<char>) -> bool;

/// Whether the parsed JSON document is an array.
pub uninterp spec fn json_is_array(text: Seq<char>) -> bool;

/// The length of the parsed JSON array.
pub uninterp spec fn json_array_len(text: Seq<char>) -> nat;

/// The string under `key` in the `i`-th event object of the payload;
/// `None` when that object is not a JSON object, the key is absent, or the
/// value under it is not a string.
pub uninterp spec fn json_field_str(text: Seq<char>, i: int, key: Seq<char>) -> Option<Seq<char>>;

/// The string under `key2` inside the object under `key1` of the `i`-th
/// event object; `None` when any step is absent or of the wrong type.
pub uninterp spec fn json_field2_str(
    text: Seq<char>,
    i: int,
    key1: Seq<char>,
    key2: Seq<char>,
) -> Option<Seq<char>>;

/// How many event objects the parsed payload holds: the array length for
/// an array, one for anything else.
pub open spec fn json_event_count(text: Seq<char>) -> nat {
    if json_is_array(text) {
        json_array_len(text)
    } else {
        1
    }
}

/// A parsed payload together with the text it was parsed from.
struct JsonRoot {
    val: serde_json::Value,
    from: Ghost<Seq<char>>,
}

impl JsonRoot {
    /// The payload text this value was parsed from.
    closed spec fn text(&self) -> Seq<char> {
        self.from@
    }
}

/// One event object of a parsed payload, together with the payload text it
/// came from and its index among the payload's event objects.
pub struct EventObj {
    val: serde_json::Value,
    from: Ghost<Seq<char>>,
    at_index: Ghost<int>,
}

impl EventObj {
    /// The payload text this event object came from.
    pub closed spec fn text(&self) -> Seq<char> {
        self.from@
    }

    /// The object's index among the payload's event objects.
    pub closed spec fn index(&self) -> int {
        self.at_index@
    }
}

/// Relies on `serde_json::from_str::<Value>`: parsing succeeds exactly
/// when the text is a valid JSON document, and returns `Err` rather than
/// panicking otherwise.
#[verifier::external_body]
fn parse_json_raw(s: &str) -> (r: Option<serde_json::Value>)
    ensures
        r is Some <==> json_parses(s@),
{
    serde_json::from_str(s).ok()
}

/// Relies on `serde_json::Value::is_array`: whether the parsed document is
/// an array.
#[verifier::external_body]
fn root_is_array(root: &JsonRoot) -> (b: bool)
    ensures
        b == json_is_array(root.text()),
{
    root.val.is_array()
}

/// Relies on `serde_json::Value::as_array`: the length of the parsed
/// array.
#[verifier::external_body]
fn root_array_len(root: &JsonRoot) -> (n: usize)
    requires
        json_is_array(root.text()),
    ensures
        n == json_array_len(root.text()),
{
    root.val.as_array().unwrap().len()
}

/// Relies on `serde_json::Value::as_array`: element `i` of the parsed
/// array.
#[verifier::external_body]
fn nth_element(root: &JsonRoot, i: usize) -> serde_json::Value
    requires
        json_is_array(root.text()),
        i < json_array_len(root.text()),
{
    root.val.as_array().unwrap()[i].clone()
}

/// Parses a payload into its event objects: `None` exactly for malformed
/// JSON, else the array's elements in order, or the single parsed value
/// alone.
pub(crate) fn parse_payload(s: &str) -> (r: Option<Vec<EventObj>>)
    ensures
        r is Some <==> json_parses(s@),
        r matches Some(v) ==> v@.len() == json_event_count(s@),
        r matches Some(v) ==> forall|i: int|
            0 <= i < v@.len() ==> (#[trigger] v@[i]).text() == s@ && v@[i].index() == i,
{
    match parse_json_raw(s) {
        None => None,
        Some(val) => {
            let root = JsonRoot { val, from: Ghost(s@) };
            if root_is_array(&root) {
                let n = root_array_len(&root);
                let mut v: Vec<EventObj> = Vec::new();
                let mut i: usize = 0;
                while i < n
                    invariant
                        i <= n,
                        json_is_array(root.text()),
                        root.text() == s@,
                        n == json_array_len(root.text()),
                        v@.len() == i,
                        forall|j: int|
                            0 <= j < i ==> (#[trigger] v@[j]).text() == s@ && v@[j].index() == j,
                    decreases n - i,
                {
                    let el = nth_element(&root, i);
                    v.push(EventObj { val: el, from: Ghost(s@), at_index: Ghost(i as int) });
                    i = i + 1;
                }
                Some(v)
            } else {
                let JsonRoot { val, from } = root;
                let mut v: Vec<EventObj> = Vec::new();
                v.push(EventObj { val, from, at_index: Ghost(0) });
                Some(v)
            }
        },
    }
}

/// Relies on `serde_json::Value::get` and `Value::as_str`: the string
/// under `key` in the event object, if the object has one there.
#[verifier::external_body]
pub(crate) fn obj_field_str(o: &EventObj, key: &str) -> (r: Option<String>)
    ensures
        opt_text(r) == json_field_str(o.text(), o.index(), key@),
{
    o.val.get(key).and_then(|v| v.as_str()).map(|s| s.to_string())
}

/// Relies on `serde_json::Value::get` and `Value::as_str`: the string
/// under `key2` inside the object under `key1` of the event object, if
/// present.
#[verifier::external_body]
pub(crate) fn obj_field2_str(o: &EventObj, key1: &str, key2: &str) -> (r: Option<String>)
    ensures
        opt_text(r) == json_field2_str(o.text(), o.index(), key1@, key2@),
{
    o.val.get(key1).and_then(|v| v.get(key2)).and_then(|v| v.as_str()).map(|s| s.to_string())
}

} // verus!
