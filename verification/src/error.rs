//! The API error type and its rendering.

use vstd::prelude::*;

use crate::num::dec_of_u16;
use crate::num::dec_str;
use crate::text::string_of;
use vstd::string::StringExecFns;

verus! {

/// A failed API call: the HTTP status if one was received, a human-readable
/// message, and the parsed JSON error body when there was one.
pub struct ApiError {
    /// Absent when the failure happened before any HTTP status arrived.
    pub status: Option<u16>,
    pub message: String,
    pub payload: Option<serde_json::Value>,
}

/// The message used for an HTTP failure whose body carries no usable text.
pub open spec fn default_status_message(status: u16) -> Seq<char> {
    "deepseek api error (status "@ + dec_str(status as nat) + ")"@
}

/// Renders the placeholder message for a bare HTTP status.
pub fn status_message(status: u16) -> (r: String)
    ensures
        r@ == default_status_message(status),
{
    let digits = dec_of_u16(status);
    let ds = string_of(&digits);
    let head = "deepseek api error (status ".to_owned();
    let mid = head.concat(ds.as_str());
    let out = mid.concat(")");
    proof {
        assert(out@ =~= default_status_message(status));
    }
    out
}

impl ApiError {
    /// The single-line rendering of this error, status included when known.
    pub open spec fn describe_spec(&self) -> Seq<char> {
        match self.status {
            Some(st) => "DeepSeek API error (status "@ + dec_str(st as nat) + "): "@
                + self.message@,
            None => "DeepSeek API error: "@ + self.message@,
        }
    }

    /// Renders this error for display.
    pub fn describe(&self) -> (r: String)
        ensures
            r@ == self.describe_spec(),
    {
        match self.status {
            Some(st) => {
                let digits = dec_of_u16(st);
                let ds = string_of(&digits);
                let head = "DeepSeek API error (status ".to_owned();
                let a = head.concat(ds.as_str());
                let b = a.concat("): ");
                let out = b.concat(self.message.as_str());
                proof {
                    assert(out@ =~= self.describe_spec());
                }
                out
            },
            None => {
                let head = "DeepSeek API error: ".to_owned();
                let out = head.concat(self.message.as_str());
                out
            },
        }
    }
}

/// An error for a failure below HTTP: no status was received.
pub fn network_error(detail: &str) -> (r: ApiError)
    ensures
        r.status is None,
        r.message@ == "network error: "@ + detail@,
        r.payload is None,
{
    ApiError {
        status: None,
        message: "network error: ".to_owned().concat(detail),
        payload: None,
    }
}

} // verus!
