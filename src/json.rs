//! JSON documents, held as `serde_json::Value`. What serde_json computes is
//! named here and relied on through one small wrapper per call.
use vstd::prelude::*;

verus! {

#[verifier::external_type_specification]
#[verifier::external_body]
pub struct ExValue(serde_json::Value);

/// Relies on the derived `Clone` of `serde_json::Value`: a copy equals the
/// value copied.
pub assume_specification[ <serde_json::Value as Clone>::clone ](v: &serde_json::Value) -> (r:
    serde_json::Value)
    ensures
        r == *v,
;

/// What `serde_json::from_str::<Value>` makes of a text: the document, or
/// `None` where the text is not one JSON document.
pub uninterp spec fn json_decode(s: Seq<char>) -> Option<serde_json::Value>;

/// The member `key` of an object document: `None` where the key is missing
/// or the document is no object.
pub uninterp spec fn json_member(v: serde_json::Value, key: Seq<char>) -> Option<serde_json::Value>;

/// The text of a string document: `None` for any other kind of document.
pub uninterp spec fn json_str(v: serde_json::Value) -> Option<Seq<char>>;

/// The integer of a number document that is an integer within `i64`.
pub uninterp spec fn json_i64(v: serde_json::Value) -> Option<i64>;

/// The object whose members are the given keys with string values; of two
/// pairs with one key the later one stays.
pub uninterp spec fn string_object(pairs: Seq<(Seq<char>, Seq<char>)>) -> serde_json::Value;

/// The document is an object.
pub uninterp spec fn json_is_object(v: serde_json::Value) -> bool;

/// The compact JSON text of a document.
pub uninterp spec fn json_text(v: serde_json::Value) -> Seq<char>;

/// The empty object, the arguments of a call that names none.
pub open spec fn empty_object() -> serde_json::Value {
    string_object(Seq::empty())
}

/// The value of the last of `ps` with the key `k`, if any.
pub open spec fn last_value(ps: Seq<(Seq<char>, Seq<char>)>, k: Seq<char>) -> Option<Seq<char>>
    decreases ps.len(),
{
    if ps.len() == 0 {
        None
    } else if ps.last().0 == k {
        Some(ps.last().1)
    } else {
        last_value(ps.drop_last(), k)
    }
}

pub open spec fn pair_views(ps: Seq<(String, String)>) -> Seq<(Seq<char>, Seq<char>)> {
    ps.map_values(|p: (String, String)| (p.0@, p.1@))
}

/// The text of a string member, or the empty text where there is none.
pub open spec fn member_text(v: serde_json::Value, key: Seq<char>) -> Seq<char> {
    match json_member(v, key) {
        Some(m) => match json_str(m) {
            Some(t) => t,
            None => Seq::empty(),
        },
        None => Seq::empty(),
    }
}

/// Relies on `serde_json::from_str::<serde_json::Value>`, which decodes one
/// JSON document or fails.
#[verifier::external_body]
pub(crate) fn decode_json(s: &str) -> (r: Option<serde_json::Value>)
    ensures
        r == json_decode(s@),
{
    serde_json::from_str::<serde_json::Value>(s).ok()
}

/// Relies on `serde_json::Value::get` with a string key.
#[verifier::external_body]
pub(crate) fn member(v: &serde_json::Value, key: &str) -> (r: Option<serde_json::Value>)
    ensures
        r == json_member(*v, key@),
{
    v.get(key).cloned()
}

/// Relies on `serde_json::Value::as_str`.
#[verifier::external_body]
pub(crate) fn text_of(v: &serde_json::Value) -> (r: Option<String>)
    ensures
        match r {
            Some(t) => json_str(*v) == Some(t@),
            None => json_str(*v) is None,
        },
{
    v.as_str().map(|t| t.to_string())
}

/// Relies on `serde_json::Value::is_object`.
#[verifier::external_body]
pub(crate) fn is_object(v: &serde_json::Value) -> (r: bool)
    ensures
        r == json_is_object(*v),
{
    v.is_object()
}

/// Relies on `serde_json::Value::as_i64`.
#[verifier::external_body]
pub(crate) fn int_of(v: &serde_json::Value) -> (r: Option<i64>)
    ensures
        r == json_i64(*v),
{
    v.as_i64()
}

/// Relies on collecting `(String, Value)` pairs into a `serde_json::Map`,
/// each value a `Value::String`, and wrapping it as `Value::Object`: the
/// map (a `BTreeMap`) keeps the last value of each key, and `get` and
/// `as_str` read it back.
#[verifier::external_body]
pub(crate) fn object_of_strings(pairs: Vec<(String, String)>) -> (r: serde_json::Value)
    ensures
        r == string_object(pair_views(pairs@)),
        json_is_object(r),
        forall|k: Seq<char>|
            match #[trigger] last_value(pair_views(pairs@), k) {
                Some(v) => json_member(r, k) matches Some(m) && json_str(m) == Some(v),
                None => json_member(r, k) is None,
            },
{
    serde_json::Value::Object(
        pairs.into_iter().map(|(k, v)| (k, serde_json::Value::String(v))).collect(),
    )
}

/// Relies on the `Display` of `serde_json::Value`, which writes compact JSON.
#[verifier::external_body]
pub(crate) fn encode_json(v: &serde_json::Value) -> (r: String)
    ensures
        r@ == json_text(*v),
{
    v.to_string()
}

/// The text of the string member `key` of `v`, or the empty text.
pub fn member_text_of(v: &serde_json::Value, key: &str) -> (r: String)
    ensures
        r@ == member_text(*v, key@),
{
    match member(v, key) {
        Some(m) => match text_of(&m) {
            Some(t) => t,
            None => String::new(),
        },
        None => String::new(),
    }
}

} // verus!
