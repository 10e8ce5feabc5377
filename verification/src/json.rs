//! Trusted boundary to `serde_json`: parsing text into opaque JSON values
//! and reading an upstream error message out of a parsed error body.

use vstd::prelude::*;

verus! {

#[verifier::external_type_specification]
#[verifier::external_body]
pub struct ExValue(serde_json::Value);

/// The JSON value `serde_json::from_str::<Value>` yields for a text, if any;
/// it depends on the text alone.
pub uninterp spec fn json_parse_spec(s: Seq<char>) -> Option<serde_json::Value>;

/// The rendering of the parse error `serde_json::from_str::<Value>` reports
/// for a text it rejects; it depends on the text alone.
pub uninterp spec fn json_err_detail(s: Seq<char>) -> Seq<char>;

/// The upstream error message inside a parsed error body: the string at
/// `error.message`, else the string at top-level `message`, else nothing;
/// it depends on the body text alone.
pub uninterp spec fn error_message_in(s: Seq<char>) -> Option<Seq<char>>;

/// Relies on `serde_json::from_str::<Value>`, which accepts or rejects a
/// text and, on rejection, renders an error, deterministically in the text.
#[verifier::external_body]
pub fn parse_json_text(text: &str) -> (r: Result<serde_json::Value, String>)
    ensures
        r is Ok <==> json_parse_spec(text@) is Some,
        r matches Ok(v) ==> json_parse_spec(text@) == Some(v),
        r matches Err(d) ==> d@ == json_err_detail(text@),
{
    match serde_json::from_str::<serde_json::Value>(text) {
        Ok(v) => Ok(v),
        Err(e) => Err(e.to_string()),
    }
}

/// Relies on `serde_json::from_str::<Value>`, `Value::get`,
/// `Value::as_object`, `Map::get` and `Value::as_str`: parses an HTTP error
/// body and reads the string under `error.message`, falling back to a
/// top-level `message` string; both steps are deterministic in the text.
#[verifier::external_body]
pub fn parse_failure_body(text: &str) -> (r: Option<(serde_json::Value, Option<String>)>)
    ensures
        r is Some <==> json_parse_spec(text@) is Some,
        r matches Some(p) ==> json_parse_spec(text@) == Some(p.0),
        r matches Some(p) ==> match p.1 {
            Some(m) => error_message_in(text@) == Some(m@),
            None => error_message_in(text@) is None,
        },
{
    let value = serde_json::from_str::<serde_json::Value>(text).ok()?;
    let message = value
        .get("error")
        .and_then(|e| e.as_object())
        .and_then(|o| o.get("message"))
        .and_then(|m| m.as_str())
        .map(|s| s.to_string())
        .or_else(|| value.get("message").and_then(|m| m.as_str()).map(|s| s.to_string()));
    Some((value, message))
}

} // verus!
