//! The JSON values that the settings store keeps come from `serde_json`.
//!
//! A `serde_json::Value` is opaque to the verifier. The names below stand for
//! what `serde_json`'s accessors return on a value; the wrappers are the only
//! places where `serde_json` is called, and each one's contract says what the
//! crate's source shows of the call.
use vstd::prelude::*;

verus! {

#[verifier::external_type_specification]
#[verifier::external_body]
pub struct ExJsonValue(serde_json::Value);

/// What `Value::get` with a string key returns: the member under that key
/// when the value is an object that has it.
pub uninterp spec fn json_member(v: serde_json::Value, key: Seq<char>) -> Option<serde_json::Value>;

/// What `Value::as_str` returns.
pub uninterp spec fn json_str(v: serde_json::Value) -> Option<Seq<char>>;

/// What `Value::as_bool` returns.
pub uninterp spec fn json_bool(v: serde_json::Value) -> Option<bool>;

/// What `Value::as_i64` returns.
pub uninterp spec fn json_i64(v: serde_json::Value) -> Option<i64>;

/// What `Value::is_null` returns.
pub uninterp spec fn json_is_null(v: serde_json::Value) -> bool;

/// What `Value::is_object` returns.
pub uninterp spec fn json_is_object(v: serde_json::Value) -> bool;

/// The strings of a JSON array whose elements are all strings, in order
/// (`Value::as_array`, each element read with `as_str`); `None` for any
/// other value.
pub uninterp spec fn json_str_array(v: serde_json::Value) -> Option<Seq<Seq<char>>>;

/// What `serde_json::from_str::<Value>` returns on a text, `None` for an error.
pub uninterp spec fn json_parse(text: Seq<char>) -> Option<serde_json::Value>;

/// What `serde_json::from_str::<Vec<Value>>` returns on a text (the elements
/// of a JSON array), `None` for an error.
pub uninterp spec fn json_parse_list(text: Seq<char>) -> Option<Seq<serde_json::Value>>;

/// What `Value::as_u64` returns.
pub uninterp spec fn json_u64(v: serde_json::Value) -> Option<u64>;

/// Calls `Value::get` with a string key and clones the member. Claims that
/// the result is `json_member` of the arguments, and that a value that is not
/// an object, null among them, has no members (`index_into` for `str`
/// matches only `Value::Object`).
#[verifier::external_body]
pub(crate) fn json_get(v: &serde_json::Value, key: &str) -> (r: Option<serde_json::Value>)
    ensures
        r == json_member(*v, key@),
        !json_is_object(*v) ==> r is None,
        json_is_null(*v) ==> r is None,
{
    v.get(key).cloned()
}

/// Builds `Value::Null`. Claims that it is null, not an object, and has no
/// members, and that it is the only null value (`is_null` holds of
/// `Value::Null` alone).
#[verifier::external_body]
pub(crate) fn json_null() -> (r: serde_json::Value)
    ensures
        json_is_null(r),
        forall|v: serde_json::Value| json_is_null(v) ==> v == r,
        !json_is_object(r),
        forall|k: Seq<char>| json_member(r, k) is None,
{
    serde_json::Value::Null
}

/// Writes `v[key] = val` through `IndexMut<&str>`. `index_or_insert` turns a
/// null value into an empty object first and panics on any other value that
/// is not an object, hence the `requires`. Claims that afterwards the value is
/// an object whose member `key` is `val`, and whose other members are as they
/// were: none when the value was null.
#[verifier::external_body]
pub(crate) fn json_set(v: &mut serde_json::Value, key: &str, val: serde_json::Value)
    requires
        json_is_object(*old(v)) || json_is_null(*old(v)),
    ensures
        json_is_object(*final(v)),
        !json_is_null(*final(v)),
        json_member(*final(v), key@) == Some(val),
        forall|k: Seq<char>| k != key@ ==> json_member(*final(v), k) == json_member(*old(v), k),
        json_is_null(*old(v)) ==> forall|k: Seq<char>| k != key@ ==> json_member(*final(v), k) is None,
{
    v[key] = val;
}

/// Builds `Value::String(s)`, what `json!(s)` gives for a string. Claims that
/// `as_str` gives `s` back and that the value is no object, null, boolean or
/// integer.
#[verifier::external_body]
pub(crate) fn json_from_string(s: String) -> (r: serde_json::Value)
    ensures
        json_str(r) == Some(s@),
        !json_is_object(r),
        !json_is_null(r),
        json_bool(r) is None,
        json_i64(r) is None,
{
    serde_json::Value::String(s)
}

/// Builds `Value::Bool(b)`. Claims that `as_bool` gives `b` back and that the
/// value is no object, null, string or integer.
#[verifier::external_body]
pub(crate) fn json_from_bool(b: bool) -> (r: serde_json::Value)
    ensures
        json_bool(r) == Some(b),
        !json_is_object(r),
        !json_is_null(r),
        json_str(r) is None,
        json_i64(r) is None,
{
    serde_json::Value::Bool(b)
}

/// Builds a number from an `i64` (`Value::from`). Claims that `as_i64` gives
/// `n` back and that the value is no object, null, string or boolean.
#[verifier::external_body]
pub(crate) fn json_from_i64(n: i64) -> (r: serde_json::Value)
    ensures
        json_i64(r) == Some(n),
        !json_is_object(r),
        !json_is_null(r),
        json_str(r) is None,
        json_bool(r) is None,
{
    serde_json::Value::from(n)
}

/// Builds a number from a `u64` (`Value::from`, what `json!` gives for a
/// `usize`). `Number::as_u64` gives `n` back, and `Number::as_i64` gives it
/// when it is at most `i64::MAX`; the contract claims that and that the
/// value is no object or null.
#[verifier::external_body]
pub(crate) fn json_from_u64(n: u64) -> (r: serde_json::Value)
    ensures
        json_u64(r) == Some(n),
        json_i64(r) == (if n <= i64::MAX as u64 {
            Some(n as i64)
        } else {
            None
        }),
        !json_is_object(r),
        !json_is_null(r),
{
    serde_json::Value::from(n)
}

/// Builds `Value::Object(Map::new())`. Claims an object without members.
#[verifier::external_body]
pub(crate) fn json_empty_object() -> (r: serde_json::Value)
    ensures
        json_is_object(r),
        !json_is_null(r),
        forall|k: Seq<char>| json_member(r, k) is None,
{
    serde_json::Value::Object(serde_json::Map::new())
}

/// Builds a JSON array of strings (`Value::from(Vec<String>)`, which makes
/// `Value::Array` of `Value::String`s). Claims that its strings are `items`
/// in order and that the value is no object and not null.
#[verifier::external_body]
pub(crate) fn json_string_array(items: Vec<String>) -> (r: serde_json::Value)
    ensures
        json_str_array(r) == Some(items@.map_values(|s: String| s@)),
        !json_is_object(r),
        !json_is_null(r),
{
    serde_json::Value::from(items)
}

/// Calls `Value::as_str` and copies the string out.
#[verifier::external_body]
pub(crate) fn json_as_str(v: &serde_json::Value) -> (r: Option<String>)
    ensures
        match r {
            Some(s) => json_str(*v) == Some(s@),
            None => json_str(*v) is None,
        },
{
    v.as_str().map(|s| s.to_string())
}

/// Calls `Value::as_bool`.
#[verifier::external_body]
pub(crate) fn json_as_bool(v: &serde_json::Value) -> (r: Option<bool>)
    ensures
        r == json_bool(*v),
{
    v.as_bool()
}

/// Calls `Value::as_i64`.
#[verifier::external_body]
pub(crate) fn json_as_i64(v: &serde_json::Value) -> (r: Option<i64>)
    ensures
        r == json_i64(*v),
{
    v.as_i64()
}

/// Calls `Value::is_object`.
#[verifier::external_body]
pub(crate) fn json_check_object(v: &serde_json::Value) -> (r: bool)
    ensures
        r == json_is_object(*v),
{
    v.is_object()
}

/// Calls `Value::is_null`.
#[verifier::external_body]
pub(crate) fn json_check_null(v: &serde_json::Value) -> (r: bool)
    ensures
        r == json_is_null(*v),
{
    v.is_null()
}

/// `v.as_object()`, the map cloned back into a `Value::Object`: `Some` of
/// an object with `v`'s members when `v` is an object, `None` otherwise.
#[verifier::external_body]
pub(crate) fn json_object_clone(v: &serde_json::Value) -> (r: Option<serde_json::Value>)
    ensures
        r is Some <==> json_is_object(*v),
        r matches Some(m) ==> {
            &&& json_is_object(m)
            &&& !json_is_null(m)
            &&& forall|k: Seq<char>| json_member(m, k) == json_member(*v, k)
        },
{
    v.as_object().map(|m| serde_json::Value::Object(m.clone()))
}

/// Calls `serde_json::from_str::<Value>`, `None` for a parse error. Claims
/// that the result is `json_parse` of the text.
#[verifier::external_body]
pub(crate) fn json_parse_text(text: &str) -> (r: Option<serde_json::Value>)
    ensures
        r == json_parse(text@),
{
    serde_json::from_str::<serde_json::Value>(text).ok()
}

/// Calls `serde_json::from_str::<Vec<Value>>`, `None` for a parse error.
/// Claims that the result is `json_parse_list` of the text.
#[verifier::external_body]
pub(crate) fn json_parse_list_text(text: &str) -> (r: Option<Vec<serde_json::Value>>)
    ensures
        r is Some <==> json_parse_list(text@) is Some,
        r matches Some(items) ==> json_parse_list(text@) == Some(items@),
{
    serde_json::from_str::<Vec<serde_json::Value>>(text).ok()
}

} // verus!
