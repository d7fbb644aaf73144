//! Extraction of the `code`, `nonce` and `state` string fields from the
//! JSON body of a callback POST.

use vstd::prelude::*;

verus! {

/// Whether `serde_json` accepts this text as JSON; the outcome depends on
/// the text alone.
pub uninterp spec fn json_parses(body: Seq<char>) -> bool;

/// The string value that the JSON object in `body` holds under `key`, or
/// `None` when `body` is not an object, lacks the key, or holds a
/// non-string value there; the outcome depends on the text alone.
pub uninterp spec fn json_str_field(body: Seq<char>, key: Seq<char>) -> Option<Seq<char>>;

/// The character sequences of an optional string.
pub open spec fn opt_view(o: Option<String>) -> Option<Seq<char>> {
    match o {
        Option::Some(s) => Option::Some(s@),
        Option::None => Option::None,
    }
}

/// Relies on `serde_json::from_str::<serde_json::Value>`, `Value::get` and
/// `Value::as_str`: parsing succeeds or fails on the text alone, and each
/// extracted field is the string value under that key of the parsed
/// object, if there is one.
#[verifier::external_body]
pub fn parse_json_fields(body: &str) -> (r: Option<(Option<String>, Option<String>, Option<String>)>)
    ensures
        r is Some <==> json_parses(body@),
        (r matches Some(f) ==> opt_view(f.0) == json_str_field(body@, "code"@)
            && opt_view(f.1) == json_str_field(body@, "nonce"@)
            && opt_view(f.2) == json_str_field(body@, "state"@)),
{
    match serde_json::from_str::<serde_json::Value>(body) {
        Ok(v) => Some((
            v.get("code").and_then(|x| x.as_str()).map(|s| s.to_string()),
            v.get("nonce").and_then(|x| x.as_str()).map(|s| s.to_string()),
            v.get("state").and_then(|x| x.as_str()).map(|s| s.to_string()),
        )),
        Err(_) => None,
    }
}

} // verus!
