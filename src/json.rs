//! The JSON values that the host carries for guests and for the shell, and
//! the calls into serde_json that read them.
use serde_json::Value;
use vstd::prelude::*;

verus! {

/// serde_json's dynamic JSON value. The kernel never looks inside one except
/// through the functions of this module.
#[verifier::external_type_specification]
#[verifier::external_body]
pub struct ExValue(Value);

/// Relies on the derived `Clone` of `serde_json::Value`: the copy is the same value.
pub assume_specification[ <Value as Clone>::clone ](v: &Value) -> (r: Value)
    ensures
        r == *v,
;

} // verus!

verus! {

/// The string that serde_json finds under `key` in `v`: `Some` when `v` is an
/// object holding a string there, `None` otherwise.
pub uninterp spec fn json_str_at(v: Value, key: Seq<char>) -> Option<Seq<char>>;

/// Relies on serde_json's `Value::get` with a string key, the result read
/// with `Value::as_str`: the string stored under `key` when `v` is an object
/// holding a string there, `None` otherwise; it depends on `v` and `key` alone.
#[verifier::external_body]
pub(crate) fn str_field(v: &Value, key: &str) -> (r: Option<String>)
    ensures
        match r {
            Some(s) => json_str_at(*v, key@) == Some(s@),
            None => json_str_at(*v, key@) is None,
        },
{
    v.get(key).and_then(Value::as_str).map(str::to_string)
}

} // verus!

verus! {

/// The value that serde_json parses from the text; `None` when the text is
/// not one well-formed JSON value.
pub uninterp spec fn json_parse(s: Seq<char>) -> Option<Value>;

/// Relies on `serde_json::from_str` into a `Value`: the parsed value, or an
/// error on text that is not JSON; either depends on the text alone.
#[verifier::external_body]
pub(crate) fn parse_json(s: &str) -> (r: Option<Value>)
    ensures
        r == json_parse(s@),
{
    serde_json::from_str::<Value>(s).ok()
}

} // verus!
