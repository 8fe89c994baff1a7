//! JSON documents as `serde_json` reads them.
//!
//! Parsing and the accessors of `serde_json::Value` are not verified here:
//! each is called through a small function whose contract is taken on trust.
//! What a value holds is modelled by [`JsonTree`].

use vstd::prelude::*;

verus! {

#[verifier::external_type_specification]
#[verifier::external_body]
pub struct ExValue(serde_json::Value);

#[verifier::external_type_specification]
#[verifier::external_body]
pub struct ExJsonError(serde_json::Error);

/// The mathematical content of a JSON value.
///
/// A number is `Some(i)` when it is held as an integer and `None` when it is
/// held as a fraction.
pub ghost enum JsonTree {
    Null,
    Bool(bool),
    Number(Option<int>),
    Text(Seq<char>),
    Array(Seq<JsonTree>),
    Object(Map<Seq<char>, JsonTree>),
}

/// The document that `serde_json::from_str` reads from `text`, or `None`
/// where it reports an error.
pub uninterp spec fn parsed_document(text: Seq<char>) -> Option<JsonTree>;

/// What a `serde_json::Value` holds.
pub uninterp spec fn tree_of(value: serde_json::Value) -> JsonTree;

/// The member `key` of an object; `None` for a missing key and for anything
/// that is not an object.
pub open spec fn member_of(tree: JsonTree, key: Seq<char>) -> Option<JsonTree> {
    match tree {
        JsonTree::Object(members) => if members.contains_key(key) {
            Some(members[key])
        } else {
            None
        },
        _ => None,
    }
}

/// The text of a JSON string; `None` for any other value.
pub open spec fn text_of(tree: JsonTree) -> Option<Seq<char>> {
    match tree {
        JsonTree::Text(s) => Some(s),
        _ => None,
    }
}

/// The integer of a JSON number that fits in an `i64`; `None` for any other
/// value.
pub open spec fn integer_of(tree: JsonTree) -> Option<i64> {
    match tree {
        JsonTree::Number(Some(i)) => if i64::MIN <= i <= i64::MAX {
            Some(i as i64)
        } else {
            None
        },
        _ => None,
    }
}

/// The truth value of a JSON boolean; `None` for any other value.
pub open spec fn flag_of(tree: JsonTree) -> Option<bool> {
    match tree {
        JsonTree::Bool(b) => Some(b),
        _ => None,
    }
}

/// The view of an optional string.
pub open spec fn opt_text(s: Option<String>) -> Option<Seq<char>> {
    match s {
        Some(s) => Some(s@),
        None => None,
    }
}

/// Calls `serde_json::from_str` for a `Value`. Trusted: the call succeeds
/// exactly where [`parsed_document`] is `Some`, and the value then holds that
/// document.
#[verifier::external_body]
pub(crate) fn read_value(text: &str) -> (r: Result<serde_json::Value, serde_json::Error>)
    ensures
        r is Ok <==> parsed_document(text@) is Some,
        r is Ok ==> parsed_document(text@) == Some(tree_of(r->Ok_0)),
{
    serde_json::from_str::<serde_json::Value>(text)
}

/// Calls `serde_json::Value::get` with a string key. Trusted: the result is
/// the member of that name where the value is an object that has one, and
/// `None` otherwise.
#[verifier::external_body]
pub(crate) fn value_member<'a>(value: &'a serde_json::Value, key: &str) -> (r: Option<
    &'a serde_json::Value,
>)
    ensures
        r is Some <==> member_of(tree_of(*value), key@) is Some,
        r is Some ==> member_of(tree_of(*value), key@) == Some(tree_of(*r->Some_0)),
{
    value.get(key)
}

/// Calls `serde_json::Value::as_str`. Trusted: the result is the text of a
/// JSON string and `None` for any other value.
#[verifier::external_body]
pub(crate) fn value_text<'a>(value: &'a serde_json::Value) -> (r: Option<&'a str>)
    ensures
        r is Some <==> text_of(tree_of(*value)) is Some,
        r is Some ==> text_of(tree_of(*value)) == Some(r->Some_0@),
{
    value.as_str()
}

/// Calls `serde_json::Value::as_i64`. Trusted: the result is the number where
/// the value is an integer that fits in an `i64`, and `None` otherwise.
#[verifier::external_body]
pub(crate) fn value_integer(value: &serde_json::Value) -> (r: Option<i64>)
    ensures
        r == integer_of(tree_of(*value)),
{
    value.as_i64()
}

/// Calls `serde_json::Value::as_bool`. Trusted: the result is the truth value
/// of a JSON boolean and `None` for any other value.
#[verifier::external_body]
pub(crate) fn value_flag(value: &serde_json::Value) -> (r: Option<bool>)
    ensures
        r == flag_of(tree_of(*value)),
{
    value.as_bool()
}

/// The string member `key` of a document: `Some` exactly where the document
/// is an object whose member `key` is a JSON string.
pub open spec fn text_member(tree: JsonTree, key: Seq<char>) -> Option<Seq<char>> {
    match member_of(tree, key) {
        Some(m) => text_of(m),
        None => None,
    }
}

/// Reads the string member `key` of `value`.
pub fn string_member(value: &serde_json::Value, key: &str) -> (r: Option<String>)
    ensures
        opt_text(r) == text_member(tree_of(*value), key@),
{
    match value_member(value, key) {
        Some(m) => match value_text(m) {
            Some(s) => Some(s.to_owned()),
            None => None,
        },
        None => None,
    }
}

} // verus!
