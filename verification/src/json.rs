//! JSON documents as plain values, read and written by `serde_json`.

use vstd::prelude::*;
use serde_json::Value;
use crate::text::text_eq;

verus! {

/// Mathematical value of a JSON document.
pub enum JsonValue {
    Null,
    Bool(bool),
    /// A number that is an unsigned integer below 2^64.
    Number(u64),
    /// Any other number: negative, fractional, or too large.
    OtherNumber,
    Text(Seq<char>),
    Array(Seq<JsonValue>),
    /// The members of an object, in document order.
    Object(Seq<(Seq<char>, JsonValue)>),
}

/// A JSON document held as plain data.
#[derive(Debug)]
pub enum Json {
    Null,
    Bool(bool),
    /// A number that is an unsigned integer below 2^64.
    Number(u64),
    /// Any other number: negative, fractional, or too large.
    OtherNumber,
    Text(String),
    Array(Vec<Json>),
    /// The members of an object, in document order.
    Object(Vec<(String, Json)>),
}

impl Json {
    /// The document as a mathematical value.
    pub open spec fn value(&self) -> JsonValue
        decreases self,
    {
        match self {
            Json::Null => JsonValue::Null,
            Json::Bool(b) => JsonValue::Bool(*b),
            Json::Number(n) => JsonValue::Number(*n),
            Json::OtherNumber => JsonValue::OtherNumber,
            Json::Text(s) => JsonValue::Text(s@),
            Json::Array(items) => JsonValue::Array(
                Seq::new(
                    items@.len(),
                    |i: int|
                        if 0 <= i < items@.len() {
                            items@[i].value()
                        } else {
                            JsonValue::Null
                        },
                ),
            ),
            Json::Object(members) => JsonValue::Object(
                Seq::new(
                    members@.len(),
                    |i: int|
                        if 0 <= i < members@.len() {
                            (members@[i].0@, members@[i].1.value())
                        } else {
                            (Seq::empty(), JsonValue::Null)
                        },
                ),
            ),
        }
    }
}

impl View for Json {
    type V = JsonValue;

    open spec fn view(&self) -> JsonValue {
        self.value()
    }
}

/// No two members carry the same key.
pub open spec fn distinct_keys(members: Seq<(Seq<char>, JsonValue)>) -> bool {
    forall|i: int, j: int|
        0 <= i < j < members.len() ==> (#[trigger] members[i]).0 != (#[trigger] members[j]).0
}

/// The value of the first member under `key`, if there is one.
pub open spec fn member_of(members: Seq<(Seq<char>, JsonValue)>, key: Seq<char>) -> Option<
    JsonValue,
>
    decreases members.len(),
{
    if members.len() == 0 {
        None
    } else if members[0].0 == key {
        Some(members[0].1)
    } else {
        member_of(members.drop_first(), key)
    }
}

impl JsonValue {
    /// The document can be written and read back unchanged: it nests at most
    /// `depth` arrays and objects, every number in it is an unsigned
    /// integer, and no object repeats a key.
    pub open spec fn printable(self, depth: nat) -> bool
        decreases depth,
    {
        match self {
            JsonValue::OtherNumber => false,
            JsonValue::Array(items) => if depth == 0 {
                false
            } else {
                forall|i: int|
                    0 <= i < items.len() ==> (#[trigger] items[i]).printable((depth - 1) as nat)
            },
            JsonValue::Object(members) => if depth == 0 {
                false
            } else {
                &&& distinct_keys(members)
                &&& forall|i: int|
                    0 <= i < members.len() ==> (#[trigger] members[i]).1.printable(
                        (depth - 1) as nat,
                    )
            },
            _ => true,
        }
    }
}

/// The members of an object as mathematical values.
pub open spec fn members_value(members: Seq<(String, Json)>) -> Seq<(Seq<char>, JsonValue)> {
    Seq::new(members.len(), |i: int| (members[i].0@, members[i].1@))
}

/// The items of an array as mathematical values.
pub open spec fn items_value(items: Seq<Json>) -> Seq<JsonValue> {
    Seq::new(items.len(), |i: int| items[i]@)
}

/// The view of an object is the view of its members, one by one.
pub proof fn lemma_object_value(members: Vec<(String, Json)>)
    ensures
        Json::Object(members)@ == JsonValue::Object(members_value(members@)),
{
    assert(Json::Object(members)@->Object_0 =~= members_value(members@));
}

/// The view of an array is the view of its items, one by one.
pub proof fn lemma_array_value(items: Vec<Json>)
    ensures
        Json::Array(items)@ == JsonValue::Array(items_value(items@)),
{
    assert(Json::Array(items)@->Array_0 =~= items_value(items@));
}

/// `member_of` finds the member at `at` when no earlier member has the key.
pub proof fn lemma_member_at(members: Seq<(Seq<char>, JsonValue)>, key: Seq<char>, at: int)
    requires
        0 <= at < members.len(),
        members[at].0 == key,
        forall|k: int| 0 <= k < at ==> (#[trigger] members[k]).0 != key,
    ensures
        member_of(members, key) == Some(members[at].1),
    decreases at,
{
    if at > 0 {
        let rest = members.drop_first();
        assert forall|k: int| 0 <= k < at - 1 implies (#[trigger] rest[k]).0 != key by {
            assert(rest[k] == members[k + 1]);
        }
        lemma_member_at(rest, key, at - 1);
    }
}

/// `member_of` finds nothing when no member has the key.
pub proof fn lemma_member_absent(members: Seq<(Seq<char>, JsonValue)>, key: Seq<char>)
    requires
        forall|k: int| 0 <= k < members.len() ==> (#[trigger] members[k]).0 != key,
    ensures
        member_of(members, key) is None,
    decreases members.len(),
{
    if members.len() > 0 {
        let rest = members.drop_first();
        assert forall|k: int| 0 <= k < rest.len() implies (#[trigger] rest[k]).0 != key by {
            assert(rest[k] == members[k + 1]);
        }
        lemma_member_absent(rest, key);
    }
}

/// The value of the first member under `key`, if there is one.
pub fn member<'a>(members: &'a Vec<(String, Json)>, key: &str) -> (found: Option<&'a Json>)
    ensures
        match found {
            Some(j) => member_of(members_value(members@), key@) == Some(j@),
            None => member_of(members_value(members@), key@) is None,
        },
{
    let ghost all = members_value(members@);
    let mut i: usize = 0;
    while i < members.len()
        invariant
            i <= members.len(),
            all == members_value(members@),
            forall|k: int| 0 <= k < i ==> (#[trigger] all[k]).0 != key@,
        decreases members.len() - i,
    {
        if text_eq(members[i].0.as_str(), key) {
            proof {
                lemma_member_at(all, key@, i as int);
            }
            return Some(&members[i].1);
        }
        i += 1;
    }
    proof {
        lemma_member_absent(all, key@);
    }
    None
}

/// `serde_json::Value`, taken as it is: nothing of its inside is visible
/// here but through the functions below.
#[verifier::external_type_specification]
#[verifier::external_body]
pub struct ExValue(serde_json::Value);

/// The document that a `serde_json::Value` holds.
pub uninterp spec fn json_content(v: Value) -> JsonValue;

/// The document that `serde_json::from_str` reads from a text; `None` where
/// it reports an error. Where the text repeats a key within an object,
/// `serde_json` keeps one member for it, with the last of its values.
pub uninterp spec fn json_parse(text: Seq<char>) -> Option<JsonValue>;

/// The text that `serde_json::to_string` writes for a document.
pub uninterp spec fn json_compact(j: JsonValue) -> Seq<char>;

/// The text that `serde_json::to_string_pretty` writes for a document.
pub uninterp spec fn json_pretty(j: JsonValue) -> Seq<char>;

/// Calls `serde_json::from_str` for a `Value`. Nothing is claimed but that
/// the outcome is the one `json_parse` names.
#[verifier::external_body]
pub(crate) fn parse_value(text: &str) -> (parsed: Option<Value>)
    ensures
        match parsed {
            Some(v) => json_parse(text@) == Some(json_content(v)),
            None => json_parse(text@) is None,
        },
{
    serde_json::from_str::<Value>(text).ok()
}

/// Hands out what a `Value` holds, variant by variant. A number comes out as
/// `Number` where `Number::as_u64` gives one, as `OtherNumber` where not;
/// the members of an object come in the order of the document, which
/// `serde_json::Map` keeps with its feature `preserve_order`.
#[verifier::external_body]
pub(crate) fn value_to_json(v: &Value) -> (j: Json)
    ensures
        j@ == json_content(*v),
{
    match v {
        Value::Null => Json::Null,
        Value::Bool(b) => Json::Bool(*b),
        Value::Number(n) => n.as_u64().map_or(Json::OtherNumber, Json::Number),
        Value::String(s) => Json::Text(s.clone()),
        Value::Array(items) => Json::Array(items.iter().map(value_to_json).collect()),
        Value::Object(map) => Json::Object(
            map.iter().map(|(k, x)| (k.clone(), value_to_json(x))).collect(),
        ),
    }
}

/// Builds the `Value` that holds a document; `OtherNumber` stands for no
/// single number, so a document with one has no `Value`. With distinct keys
/// `serde_json::Map`, under its feature `preserve_order`, keeps every member
/// in the order given.
#[verifier::external_body]
pub(crate) fn json_to_value(j: &Json) -> (made: Option<Value>)
    requires
        j@.printable(64),
    ensures
        made is Some,
        made matches Some(v) ==> json_content(v) == j@,
{
    match j {
        Json::Null => Some(Value::Null),
        Json::OtherNumber => None,
        Json::Bool(b) => Some(Value::Bool(*b)),
        Json::Number(n) => Some(Value::from(*n)),
        Json::Text(s) => Some(Value::String(s.clone())),
        Json::Array(items) => items.iter().map(json_to_value).collect::<Option<_>>().map(
            Value::Array,
        ),
        Json::Object(members) => members.iter().map(
            |(k, x)| json_to_value(x).map(|v| (k.clone(), v)),
        ).collect::<Option<_>>().map(Value::Object),
    }
}

/// Calls `serde_json::to_string`. Writing a `Value` into memory cannot
/// fail. Of a printable document the text is the one `json_compact` names,
/// and `serde_json::from_str` reads the same document back from it (the
/// nesting stays under its limit of 128).
#[verifier::external_body]
pub(crate) fn write_compact(v: &Value) -> (written: Option<String>)
    ensures
        written is Some || !json_content(*v).printable(64),
        written matches Some(text) ==> (json_content(*v).printable(64) ==> {
            &&& text@ == json_compact(json_content(*v))
            &&& json_parse(text@) == Some(json_content(*v))
        }),
{
    serde_json::to_string(v).ok()
}

/// Calls `serde_json::to_string_pretty`. Writing a `Value` into memory
/// cannot fail. Of a printable document the text is the one `json_pretty`
/// names, and `serde_json::from_str` reads the same document back from it.
#[verifier::external_body]
pub(crate) fn write_pretty(v: &Value) -> (written: Option<String>)
    ensures
        written is Some || !json_content(*v).printable(64),
        written matches Some(text) ==> (json_content(*v).printable(64) ==> {
            &&& text@ == json_pretty(json_content(*v))
            &&& json_parse(text@) == Some(json_content(*v))
        }),
{
    serde_json::to_string_pretty(v).ok()
}

} // verus!
