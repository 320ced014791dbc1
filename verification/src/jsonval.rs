//! The trusted boundary to serde_json, which performs the raw text parse.
//!
//! A parsed document is held as a `serde_json::Value`, opaque to the
//! verifier; [`jmodel`] names the [`JsonTree`] such a value stands for, and
//! [`parsed`] names the tree that parsing a given text yields.  Every item in
//! this module is believed, not proved: each wrapper's contract states, over
//! those two names, what the named serde_json function returns.  All decoding
//! logic proper is verified code in the sibling modules, stated against these
//! contracts.

use vstd::prelude::*;

use crate::jsontree::{token_u64, JsonTree};

verus! {

#[verifier::external_type_specification]
#[verifier::external_body]
pub struct ExValue(serde_json::Value);

#[verifier::external_type_specification]
#[verifier::external_body]
pub struct ExError(serde_json::Error);

/// The JSON tree a `serde_json::Value` stands for.  Number tokens are the
/// canonical decimal text of the stored number (`Number`'s `Display`);
/// object entries come in the map's iteration order.
pub uninterp spec fn jmodel(v: serde_json::Value) -> JsonTree;

/// The tree that parsing a text yields, or `None` when the text is not a
/// well-formed JSON document.  Parsing is deterministic, so this is a
/// function of the text alone.
pub uninterp spec fn parsed(s: Seq<char>) -> Option<JsonTree>;

/// Relies on `serde_json::from_str::<Value>`: a pure, deterministic parse of
/// the input text, returning the document's value or a syntax error.
#[verifier::external_body]
pub(crate) fn parse_json(s: &str) -> (r: Result<serde_json::Value, serde_json::Error>)
    ensures
        r is Ok <==> parsed(s@) is Some,
        r is Ok ==> jmodel(r->Ok_0) == parsed(s@)->Some_0,
{
    serde_json::from_str(s)
}

/// Relies on `serde_json::Value::as_object` (a match on the enum) and on
/// `serde_json::Map` iteration, which hands out each entry once, in the
/// map's deterministic iteration order.
#[verifier::external_body]
pub(crate) fn obj_entries(v: &serde_json::Value) -> (r: Option<
    Vec<(String, serde_json::Value)>,
>)
    ensures
        (match jmodel(*v) {
            JsonTree::Obj(es) => r is Some && r->Some_0@.map_values(
                |p: (String, serde_json::Value)| (p.0@, jmodel(p.1)),
            ) == es,
            _ => r is None,
        }),
{
    match v.as_object() {
        Some(m) => Some(m.iter().map(|(k, x)| (k.clone(), x.clone())).collect()),
        None => None,
    }
}

/// Relies on `serde_json::Value::as_array`, a match on the enum.
#[verifier::external_body]
pub(crate) fn arr_elems(v: &serde_json::Value) -> (r: Option<Vec<serde_json::Value>>)
    ensures
        (match jmodel(*v) {
            JsonTree::Arr(xs) => r is Some && r->Some_0@.map_values(
                |x: serde_json::Value| jmodel(x),
            ) == xs,
            _ => r is None,
        }),
{
    v.as_array().cloned()
}

/// Relies on `serde_json::Value::as_str`, a match on the enum.
#[verifier::external_body]
pub(crate) fn str_value(v: &serde_json::Value) -> (r: Option<String>)
    ensures
        (match jmodel(*v) {
            JsonTree::Str(s) => r is Some && r->Some_0@ == s,
            _ => r is None,
        }),
{
    v.as_str().map(str::to_owned)
}

/// Relies on `serde_json::Value::as_number` and `Number`'s `Display`: the
/// canonical decimal text of a number value, which is what [`jmodel`]
/// carries in `Num`.
#[verifier::external_body]
pub(crate) fn num_token(v: &serde_json::Value) -> (r: Option<String>)
    ensures
        (match jmodel(*v) {
            JsonTree::Num(t) => r is Some && r->Some_0@ == t,
            _ => r is None,
        }),
{
    v.as_number().map(|n| n.to_string())
}

/// Relies on `serde_json::Value::as_u64`: `Some` exactly for numbers stored
/// as unsigned integers.  Those are the numbers whose canonical token is
/// bare digits — a parsed integer in `u64` range; negative numbers carry a
/// sign, and every float formats with a `.` or an exponent — so the result
/// is exactly [`token_u64`] of the token.
#[verifier::external_body]
pub(crate) fn num_u64(v: &serde_json::Value) -> (r: Option<u64>)
    ensures
        (match jmodel(*v) {
            JsonTree::Num(t) => r == token_u64(t),
            _ => r is None,
        }),
{
    v.as_u64()
}

/// Relies on `serde_json::Error`'s `Display` for a human-readable account of
/// a syntax error.
#[verifier::external_body]
pub(crate) fn error_text(e: &serde_json::Error) -> String {
    format!("{}", e)
}

} // verus!
