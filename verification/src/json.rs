//! Trusted boundary to the external JSON parser used for the daemon's
//! negotiation payload.
//!
//! What a JSON text decodes to is a function of the text alone, but takes
//! the whole JSON grammar to state, so each keyed read gets a name: an
//! uninterpreted spec function of the text and the key. The wrappers below
//! perform the read and promise exactly the named result, and the verified
//! decoder in [`crate::config`] states its contract over these names.

use vstd::prelude::*;

verus! {

/// The unsigned integer under `key` when `s` is a JSON object carrying a
/// number representable as a `u64` there; `None` otherwise.
pub uninterp spec fn json_u64_field(s: Seq<char>, key: Seq<char>) -> Option<u64>;

/// The boolean under `key` when `s` is a JSON object carrying a boolean
/// there; `None` otherwise.
pub uninterp spec fn json_bool_field(s: Seq<char>, key: Seq<char>) -> Option<bool>;

/// The text under `key` when `s` is a JSON object carrying a string there;
/// `None` otherwise.
pub uninterp spec fn json_str_field(s: Seq<char>, key: Seq<char>) -> Option<Seq<char>>;

/// Relies on `serde_json::from_str::<Value>`, `Value::get` and
/// `Value::as_u64`: reads the unsigned integer under `key`. The result
/// depends on the two texts alone.
#[verifier::external_body]
pub(crate) fn json_u64(s: &str, key: &str) -> (r: Option<u64>)
    ensures
        r == json_u64_field(s@, key@),
{
    let v: serde_json::Value = match serde_json::from_str(s) {
        Ok(v) => v,
        Err(_) => return None,
    };
    match v.get(key) {
        Some(x) => x.as_u64(),
        None => None,
    }
}

/// Relies on `serde_json::from_str::<Value>`, `Value::get` and
/// `Value::as_bool`: reads the boolean under `key`. The result depends on
/// the two texts alone.
#[verifier::external_body]
pub(crate) fn json_bool(s: &str, key: &str) -> (r: Option<bool>)
    ensures
        r == json_bool_field(s@, key@),
{
    let v: serde_json::Value = match serde_json::from_str(s) {
        Ok(v) => v,
        Err(_) => return None,
    };
    match v.get(key) {
        Some(x) => x.as_bool(),
        None => None,
    }
}

/// Relies on `serde_json::from_str::<Value>`, `Value::get` and
/// `Value::as_str`: reads the text under `key`, copied into an owned
/// `String`. The result depends on the two texts alone.
#[verifier::external_body]
pub(crate) fn json_string(s: &str, key: &str) -> (r: Option<String>)
    ensures
        (r matches Some(v) ==> json_str_field(s@, key@) == Some(v@)),
        (r is None ==> json_str_field(s@, key@) is None),
{
    let v: serde_json::Value = match serde_json::from_str(s) {
        Ok(v) => v,
        Err(_) => return None,
    };
    match v.get(key) {
        Some(x) => match x.as_str() {
            Some(text) => Some(text.to_string()),
            None => None,
        },
        None => None,
    }
}

} // verus!
