//! Trusted binding to `serde_json`, the crate that decodes request
//! payloads.
//!
//! What the decode extracts from a request body is a function of the body
//! text alone, so the result is given a name, `fields_of`, and the one
//! trusted wrapper applies it. No contract says what the fields are on a
//! given body, so everything a caller proves about a decoded request goes
//! through the verified command-building logic, which is checked for every
//! value the decode could hand back.

use vstd::prelude::*;

verus! {

/// The view of an optional extracted string field.
pub open spec fn view_opt_str(o: Option<String>) -> Option<Seq<char>> {
    match o {
        Some(s) => Some(s@),
        None => None,
    }
}

/// The view of an optional extracted integer field.
pub open spec fn view_opt_i64(o: Option<i64>) -> Option<int> {
    match o {
        Some(v) => Some(v as int),
        None => None,
    }
}

/// The five fields — name, password, currency, delta, create — that the
/// JSON decode finds in a request body. A function of the body text alone.
pub uninterp spec fn fields_of(body: Seq<char>) -> (
    Option<Seq<char>>,
    Option<Seq<char>>,
    Option<int>,
    Option<int>,
    Option<bool>,
);

/// Relies on `serde_json::from_str::<Value>` and on `Value::get`,
/// `Value::as_str`, `Value::as_i64` and `Value::as_bool`: parse one JSON
/// document and take the five fields a request can carry, each absent when
/// the document, the member or its type is not there. The result is
/// `fields_of` the body text.
#[verifier::external_body]
pub fn decode_fields(body: &str) -> (r: (
    Option<String>,
    Option<String>,
    Option<i64>,
    Option<i64>,
    Option<bool>,
))
    ensures
        (view_opt_str(r.0), view_opt_str(r.1), view_opt_i64(r.2), view_opt_i64(r.3), r.4)
            == fields_of(body@),
{
    match serde_json::from_str::<serde_json::Value>(body) {
        Ok(v) => (
            v.get("name").and_then(|f| f.as_str()).map(|s| s.to_owned()),
            v.get("password").and_then(|f| f.as_str()).map(|s| s.to_owned()),
            v.get("currency").and_then(|f| f.as_i64()),
            v.get("delta").and_then(|f| f.as_i64()),
            v.get("create").and_then(|f| f.as_bool()),
        ),
        Err(_) => (None, None, None, None, None),
    }
}

} // verus!
