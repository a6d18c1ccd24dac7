//! Trusted accessors over `serde_json::Value`, the generic document type
//! the upstream backend answers with. A `Value` is opaque to the verifier,
//! so what each accessor returns is given a name: an uninterpreted
//! function of the value alone (every `serde_json` accessor here is a pure
//! function of its argument). Each accessor's contract says it returns
//! exactly its name's result; every rule about which fields mean what is
//! then verified code in the modules above, stated over the names.

use vstd::prelude::*;
use vstd::string::StringExecFns;

verus! {

/// The generic JSON document type of the `serde_json` crate, declared so
/// that values of it can pass through signatures. Nothing about a value's
/// inside is visible to the verifier beyond the named reads below.
#[verifier::external_type_specification]
#[verifier::external_body]
pub struct ExValue(serde_json::Value);

/// What a string parses to as one JSON document, `None` when it is not
/// valid JSON. Named for `serde_json::from_str::<Value>`.
pub uninterp spec fn doc_of(s: Seq<char>) -> Option<serde_json::Value>;

/// Whether a document is a JSON object. Named for
/// `serde_json::Value::is_object`.
pub uninterp spec fn is_object_doc(v: serde_json::Value) -> bool;

/// The value under a key of an object, `None` when the value is not an
/// object or has no such key. Named for `serde_json::Value::get`.
pub uninterp spec fn field_of(v: serde_json::Value, key: Seq<char>) -> Option<serde_json::Value>;

/// The text of a JSON string, `None` for any other kind of value. Named
/// for `serde_json::Value::as_str`.
pub uninterp spec fn str_of(v: serde_json::Value) -> Option<Seq<char>>;

/// The value of a JSON number that is a non-negative integer fitting
/// `u64`, `None` otherwise. Named for `serde_json::Value::as_u64`.
pub uninterp spec fn u64_of(v: serde_json::Value) -> Option<u64>;

/// The value of a JSON boolean, `None` for any other kind of value. Named
/// for `serde_json::Value::as_bool`.
pub uninterp spec fn bool_of(v: serde_json::Value) -> Option<bool>;

/// The elements of a JSON array, `None` for any other kind of value.
/// Named for `serde_json::Value::as_array`.
pub uninterp spec fn elements_of(v: serde_json::Value) -> Option<Seq<serde_json::Value>>;

/// The text under a key: the field read and the string read composed.
pub open spec fn str_field_of(v: serde_json::Value, key: Seq<char>) -> Option<Seq<char>> {
    match field_of(v, key) {
        Some(f) => str_of(f),
        None => None,
    }
}

/// The number under a key: the field read and the `u64` read composed.
pub open spec fn u64_field_of(v: serde_json::Value, key: Seq<char>) -> Option<u64> {
    match field_of(v, key) {
        Some(f) => u64_of(f),
        None => None,
    }
}

/// The array under a key: the field read and the elements read composed.
pub open spec fn array_field_of(v: serde_json::Value, key: Seq<char>) -> Option<
    Seq<serde_json::Value>,
> {
    match field_of(v, key) {
        Some(f) => elements_of(f),
        None => None,
    }
}

/// Relies on `serde_json::from_str::<Value>` (and the error's
/// `to_string`): parses a string as one JSON document; the parsed value is
/// a function of the string alone. The error text is carried only as a
/// diagnostic and nothing is claimed of it.
#[verifier::external_body]
pub(crate) fn json_parse(s: &str) -> (r: Result<serde_json::Value, String>)
    ensures
        match r {
            Ok(v) => doc_of(s@) == Some(v),
            Err(_) => doc_of(s@) is None,
        },
{
    serde_json::from_str::<serde_json::Value>(s).map_err(|e| e.to_string())
}

/// Relies on `serde_json::Value::is_object`: true exactly when the value
/// is a JSON object.
#[verifier::external_body]
pub(crate) fn json_is_object(v: &serde_json::Value) -> (r: bool)
    ensures
        r == is_object_doc(*v),
{
    v.is_object()
}

/// Relies on `serde_json::Value::get`: the value under `key` when `v` is
/// an object that has that key, `None` otherwise.
#[verifier::external_body]
pub(crate) fn json_get<'a>(v: &'a serde_json::Value, key: &str) -> (r: Option<
    &'a serde_json::Value,
>)
    ensures
        match r {
            Some(f) => field_of(*v, key@) == Some(*f),
            None => field_of(*v, key@) is None,
        },
{
    v.get(key)
}

/// Relies on `serde_json::Value::as_str` (and `str::to_string`, which
/// copies): the owned text of a JSON string, `None` for any other kind of
/// value.
#[verifier::external_body]
pub(crate) fn json_as_string(v: &serde_json::Value) -> (r: Option<String>)
    ensures
        match r {
            Some(s) => str_of(*v) == Some(s@),
            None => str_of(*v) is None,
        },
{
    match v.as_str() {
        Some(s) => Some(s.to_string()),
        None => None,
    }
}

/// Relies on `serde_json::Value::as_u64`: the value of a JSON number that
/// is a non-negative integer fitting `u64`, `None` otherwise.
#[verifier::external_body]
pub(crate) fn json_as_u64(v: &serde_json::Value) -> (r: Option<u64>)
    ensures
        r == u64_of(*v),
{
    v.as_u64()
}

/// Relies on `serde_json::Value::as_bool`: the value of a JSON boolean,
/// `None` for any other kind of value.
#[verifier::external_body]
pub(crate) fn json_as_bool(v: &serde_json::Value) -> (r: Option<bool>)
    ensures
        r == bool_of(*v),
{
    v.as_bool()
}

/// Relies on `serde_json::Value::as_array` (and `Vec::clone`, which copies
/// the elements): the elements of a JSON array, `None` for any other kind
/// of value.
#[verifier::external_body]
pub(crate) fn json_as_array(v: &serde_json::Value) -> (r: Option<Vec<serde_json::Value>>)
    ensures
        match r {
            Some(a) => elements_of(*v) == Some(a@),
            None => elements_of(*v) is None,
        },
{
    match v.as_array() {
        Some(a) => Some(a.clone()),
        None => None,
    }
}

} // verus!
