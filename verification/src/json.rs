//! What verification reads of a JSON document: single members of its
//! top-level object, each read whole or not at all.
//!
//! Parsing is `serde_json`'s. The contracts give what it returns a name;
//! the documents of a token are small, so each read parses anew.

use vstd::prelude::*;

verus! {

/// The text of the member `member` of the JSON object `document`: `None`
/// where the bytes are no JSON text, no object, or the member is missing or
/// no string.
pub uninterp spec fn json_text(document: Seq<u8>, member: Seq<char>) -> Option<Seq<char>>;

/// The whole number of the member `member` of the JSON object `document`:
/// `None` where the bytes are no JSON text, no object, or the member is
/// missing or no number that fits 64 bits without sign or fraction.
pub uninterp spec fn json_number(document: Seq<u8>, member: Seq<char>) -> Option<u64>;

/// The items of the array member `member` of the JSON object `document`, in
/// order, each by its text or as `None` if it is no string: `None` as a
/// whole where the bytes are no JSON text, no object, or the member is
/// missing or no array.
pub uninterp spec fn json_items(document: Seq<u8>, member: Seq<char>) -> Option<
    Seq<Option<Seq<char>>>,
>;

/// Whether the JSON object `document` has a member `member`, of whatever
/// kind: `false` where the bytes are no JSON text or no object.
pub uninterp spec fn json_has(document: Seq<u8>, member: Seq<char>) -> bool;

/// The characters of a text that may be absent.
pub open spec fn text_view(text: Option<String>) -> Option<Seq<char>> {
    match text {
        Some(s) => Some(s@),
        None => None,
    }
}

/// The characters of the items of a list that may be absent.
pub open spec fn items_view(items: Option<Vec<Option<String>>>) -> Option<Seq<Option<Seq<char>>>> {
    match items {
        Some(list) => Some(Seq::new(list@.len(), |i: int| text_view(list@[i]))),
        None => None,
    }
}

/// Reads a string member with `serde_json::from_slice` into a
/// `serde_json::Value` and `Value::get` on the result. The contract claims
/// only that the answer depends on the bytes and the name alone.
#[verifier::external_body]
pub(crate) fn text_member(document: &[u8], member: &str) -> (out: Option<String>)
    ensures
        text_view(out) == json_text(document@, member@),
{
    let value = match serde_json::from_slice::<serde_json::Value>(document) {
        Ok(value) => value,
        Err(_) => return None,
    };
    match value.get(member) {
        Some(serde_json::Value::String(text)) => Some(text.clone()),
        _ => None,
    }
}

/// Reads a number member with `serde_json::from_slice` into a
/// `serde_json::Value`, `Value::get` on the result and `Number::as_u64` on
/// the member. The contract claims only that the answer depends on the
/// bytes and the name alone.
#[verifier::external_body]
pub(crate) fn number_member(document: &[u8], member: &str) -> (out: Option<u64>)
    ensures
        out == json_number(document@, member@),
{
    let value = match serde_json::from_slice::<serde_json::Value>(document) {
        Ok(value) => value,
        Err(_) => return None,
    };
    match value.get(member) {
        Some(serde_json::Value::Number(number)) => number.as_u64(),
        _ => None,
    }
}

/// Reads an array member with `serde_json::from_slice` into a
/// `serde_json::Value` and `Value::get` on the result; each item is handed
/// out through `Value::as_str`. The contract claims only that the answer
/// depends on the bytes and the name alone.
#[verifier::external_body]
pub(crate) fn items_member(document: &[u8], member: &str) -> (out: Option<Vec<Option<String>>>)
    ensures
        items_view(out) == json_items(document@, member@),
{
    let value = match serde_json::from_slice::<serde_json::Value>(document) {
        Ok(value) => value,
        Err(_) => return None,
    };
    match value.get(member) {
        Some(serde_json::Value::Array(items)) => {
            Some(items.iter().map(|item| item.as_str().map(|text| text.to_string())).collect())
        },
        _ => None,
    }
}

/// Looks for a member with `serde_json::from_slice` into a
/// `serde_json::Value` and `Value::get` on the result. The contract claims
/// only that the answer depends on the bytes and the name alone.
#[verifier::external_body]
pub(crate) fn has_member(document: &[u8], member: &str) -> (out: bool)
    ensures
        out == json_has(document@, member@),
{
    match serde_json::from_slice::<serde_json::Value>(document) {
        Ok(value) => value.get(member).is_some(),
        Err(_) => false,
    }
}

} // verus!
