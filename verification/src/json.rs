//! A plain JSON document tree and the reading of one from text.

use vstd::prelude::*;
use vstd::string::*;
use crate::text::{decimal, decimal_string};

verus! {

/// The mathematical value of a JSON document.
pub ghost enum JsonValue {
    Null,
    Bool(bool),
    Number(Seq<char>),
    Text(Seq<char>),
    Array(Seq<JsonValue>),
    Object(Seq<(Seq<char>, JsonValue)>),
}

/// A JSON document held as plain values. A number is kept as its decimal
/// text; an object is kept as its entries.
#[derive(Debug)]
pub enum Json {
    Null,
    Bool(bool),
    Number(String),
    Text(String),
    Array(Vec<Json>),
    Object(Vec<(String, Json)>),
}

/// The value that a document tree holds.
pub open spec fn json_value(doc: Json) -> JsonValue
    decreases doc,
{
    match doc {
        Json::Null => JsonValue::Null,
        Json::Bool(b) => JsonValue::Bool(b),
        Json::Number(n) => JsonValue::Number(n@),
        Json::Text(s) => JsonValue::Text(s@),
        Json::Array(items) => JsonValue::Array(
            Seq::new(
                items@.len(),
                |i: int|
                    if 0 <= i < items@.len() {
                        json_value(items@[i])
                    } else {
                        JsonValue::Null
                    },
            ),
        ),
        Json::Object(entries) => JsonValue::Object(
            Seq::new(
                entries@.len(),
                |i: int|
                    if 0 <= i < entries@.len() {
                        (entries@[i].0@, json_value(entries@[i].1))
                    } else {
                        (Seq::<char>::empty(), JsonValue::Null)
                    },
            ),
        ),
    }
}

impl View for Json {
    type V = JsonValue;

    open spec fn view(&self) -> JsonValue {
        json_value(*self)
    }
}

impl DeepView for Json {
    type V = JsonValue;

    open spec fn deep_view(&self) -> JsonValue {
        self@
    }
}

/// The value of the first entry under a key among the entries from
/// position `from` on, if there is one.
pub open spec fn lookup_from(entries: Seq<(Seq<char>, JsonValue)>, key: Seq<char>, from: int)
    -> Option<JsonValue>
    decreases entries.len() - from,
{
    if from < 0 || from >= entries.len() {
        None
    } else if entries[from].0 == key {
        Some(entries[from].1)
    } else {
        lookup_from(entries, key, from + 1)
    }
}

/// The value of the first entry under a key, if there is one.
pub open spec fn lookup(entries: Seq<(Seq<char>, JsonValue)>, key: Seq<char>) -> Option<JsonValue> {
    lookup_from(entries, key, 0)
}

impl JsonValue {
    /// The member of an object under a key; nothing else has members.
    pub open spec fn field(self, key: Seq<char>) -> Option<JsonValue> {
        match self {
            JsonValue::Object(entries) => lookup(entries, key),
            _ => None,
        }
    }
}

impl Json {
    /// A JSON string.
    pub fn text(s: &str) -> (r: Json)
        ensures
            r@ == JsonValue::Text(s@),
    {
        Json::Text(String::from_str(s))
    }

    /// A JSON number: the decimal numeral of `n`.
    pub fn number(n: usize) -> (r: Json)
        ensures
            r@ == JsonValue::Number(decimal(n as nat)),
    {
        Json::Number(decimal_string(n))
    }

    /// A JSON array of the given elements.
    pub fn array(items: Vec<Json>) -> (r: Json)
        ensures
            r@ == JsonValue::Array(items.deep_view()),
    {
        let r = Json::Array(items);
        assert(r@->Array_0 =~= items.deep_view());
        r
    }

    /// A JSON object of the given entries.
    pub fn object(entries: Vec<(String, Json)>) -> (r: Json)
        ensures
            r@ == JsonValue::Object(entries.deep_view()),
    {
        let r = Json::Object(entries);
        assert(r@->Object_0 =~= entries.deep_view());
        r
    }

    /// The member of an object under `key`.
    pub fn field(&self, key: &str) -> (r: Option<&Json>)
        ensures
            r.deep_view() == self@.field(key@),
    {
        match self {
            Json::Object(entries) => {
                let wanted = String::from_str(key);
                let ghost all = self@->Object_0;
                proof {
                    assert(all.len() == entries@.len());
                    assert forall|k: int| 0 <= k < all.len() implies #[trigger] all[k] == (
                        entries@[k].0@,
                        entries@[k].1@,
                    ) by {}
                }
                let mut i: usize = 0;
                while i < entries.len()
                    invariant
                        0 <= i <= entries.len(),
                        wanted@ == key@,
                        self@ == JsonValue::Object(all),
                        all.len() == entries@.len(),
                        forall|k: int|
                            0 <= k < all.len() ==> #[trigger] all[k] == (
                                entries@[k].0@,
                                entries@[k].1@,
                            ),
                        lookup(all, key@) == lookup_from(all, key@, i as int),
                    decreases entries.len() - i,
                {
                    if entries[i].0 == wanted {
                        return Some(&entries[i].1);
                    }
                    i = i + 1;
                }
                None
            },
            _ => None,
        }
    }

    /// Whether this is `null`.
    pub fn is_null(&self) -> (r: bool)
        ensures
            r == (self@ is Null),
    {
        match self {
            Json::Null => true,
            _ => false,
        }
    }

    /// Whether this is an object.
    pub fn is_object(&self) -> (r: bool)
        ensures
            r == (self@ is Object),
    {
        match self {
            Json::Object(_) => true,
            _ => false,
        }
    }

    /// The elements of an array.
    pub fn items(&self) -> (r: Option<&Vec<Json>>)
        ensures
            match r {
                Some(v) => self@ == JsonValue::Array(v.deep_view()),
                None => !(self@ is Array),
            },
    {
        match self {
            Json::Array(items) => {
                assert(self@->Array_0 =~= items.deep_view());
                Some(items)
            },
            _ => None,
        }
    }
}

/// `serde_json::Value`, the document tree of `serde_json`. Nothing is
/// known of what is inside one but through `value_tree`.
#[verifier::external_type_specification]
#[verifier::external_body]
pub struct ExValue(serde_json::Value);

/// `serde_json::Error`, which says why a text is no JSON document.
#[verifier::external_type_specification]
#[verifier::external_body]
pub struct ExJsonError(serde_json::Error);

/// The document that `serde_json::from_str` reads from a text, or `None`
/// where it refuses the text. Nothing more is said of it here: which texts
/// are JSON, and what they denote, is the parser's matter.
pub uninterp spec fn parsed_json(text: Seq<char>) -> Option<JsonValue>;

/// What a `serde_json::Value` holds: the same tree, with each number as
/// the text that `serde_json::Number` prints itself with, and each object
/// as its entries in the order in which its map hands them out.
pub uninterp spec fn value_tree(value: serde_json::Value) -> JsonValue;

/// Calls `serde_json::from_str` for a `serde_json::Value`. The contract
/// names the outcome: a value whose tree the text denotes, or an error
/// where the text denotes none.
#[verifier::external_body]
fn read_value(text: &str) -> (r: Result<serde_json::Value, serde_json::Error>)
    ensures
        match r {
            Ok(value) => parsed_json(text@) == Some(value_tree(value)),
            Err(_) => parsed_json(text@).is_none(),
        },
{
    serde_json::from_str::<serde_json::Value>(text)
}

/// Takes a `serde_json::Value` apart, variant by variant, into a tree of
/// plain values; a number goes through `serde_json::Number`'s `to_string`.
/// The contract says no more than that the result is what the value holds.
#[verifier::external_body]
fn lift(value: serde_json::Value) -> (r: Json)
    ensures
        r@ == value_tree(value),
{
    match value {
        serde_json::Value::Null => Json::Null,
        serde_json::Value::Bool(b) => Json::Bool(b),
        serde_json::Value::Number(n) => Json::Number(n.to_string()),
        serde_json::Value::String(s) => Json::Text(s),
        serde_json::Value::Array(items) => Json::Array(items.into_iter().map(lift).collect()),
        serde_json::Value::Object(entries) => Json::Object(
            entries.into_iter().map(|(k, v)| (k, lift(v))).collect(),
        ),
    }
}

/// Reads a JSON document from text; `None` where the text is not JSON.
pub fn parse_json(text: &str) -> (r: Option<Json>)
    ensures
        match r {
            Some(doc) => parsed_json(text@) == Some(doc@),
            None => parsed_json(text@).is_none(),
        },
{
    match read_value(text) {
        Ok(value) => Some(lift(value)),
        Err(_) => None,
    }
}

} // verus!
