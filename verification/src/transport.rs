//! Classification of one HTTP attempt's outcome into a successful API
//! outcome or an API error, as the transport performs it after the raw
//! request/response exchange.

use vstd::prelude::*;

use crate::error::status_message;
use crate::error::ApiError;
use crate::error::default_status_message;
use crate::json::error_message_in;
use crate::json::json_err_detail;
use crate::json::json_parse_spec;
use crate::json::parse_failure_body;
use crate::json::parse_json_text;
use crate::stream::parse_sse_chunks;
use crate::stream::sse_events;
use crate::text::trim_spec;
use crate::text::trim_vec;
use vstd::string::StringExecFns;

verus! {

/// The HTTP method of an endpoint.
#[derive(PartialEq, Eq, Structural, Clone, Copy, Debug)]
pub enum HttpMethod {
    Get,
    Post,
}

/// The four wire endpoints the client consumes.
#[derive(PartialEq, Eq, Structural, Clone, Copy, Debug)]
pub enum Endpoint {
    ListModels,
    GetUserBalance,
    ChatCompletions,
    Completions,
}

impl Endpoint {
    /// The request path of this endpoint.
    pub open spec fn path_spec(self) -> Seq<char> {
        match self {
            Endpoint::ListModels => "/models"@,
            Endpoint::GetUserBalance => "/user/balance"@,
            Endpoint::ChatCompletions => "/chat/completions"@,
            Endpoint::Completions => "/completions"@,
        }
    }

    /// The request path of this endpoint.
    pub fn path(&self) -> (r: &'static str)
        ensures
            r@ == self.path_spec(),
    {
        match self {
            Endpoint::ListModels => "/models",
            Endpoint::GetUserBalance => "/user/balance",
            Endpoint::ChatCompletions => "/chat/completions",
            Endpoint::Completions => "/completions",
        }
    }

    /// The HTTP method of this endpoint: the two listings use GET, the two
    /// completion calls use POST.
    pub fn method(&self) -> (r: HttpMethod)
        ensures
            r == (match self {
                Endpoint::ListModels => HttpMethod::Get,
                Endpoint::GetUserBalance => HttpMethod::Get,
                Endpoint::ChatCompletions => HttpMethod::Post,
                Endpoint::Completions => HttpMethod::Post,
            }),
    {
        match self {
            Endpoint::ListModels => HttpMethod::Get,
            Endpoint::GetUserBalance => HttpMethod::Get,
            Endpoint::ChatCompletions => HttpMethod::Post,
            Endpoint::Completions => HttpMethod::Post,
        }
    }
}

/// The value of the Authorization header for a credential.
pub fn auth_header_value(api_key: &str) -> (r: String)
    ensures
        r@ == "Bearer "@ + api_key@,
{
    "Bearer ".to_owned().concat(api_key)
}

/// A successful API call: one JSON document, or the ordered JSON events of
/// a streamed response.
pub enum ApiOutcome {
    Json(serde_json::Value),
    Stream(Vec<serde_json::Value>),
}

/// What one raw HTTP attempt produced, before classification: a failure
/// below HTTP, a response whose body was read in full, or a response whose
/// body could not be read.
pub enum HttpEvent {
    Transport { detail: String },
    Response { status: u16, body: String },
    BodyReadFailure { status: u16, detail: String },
}

/// Whether a status code counts as success.
pub open spec fn is_success_status(status: u16) -> bool {
    200 <= status < 300
}

/// The message of an HTTP failure: the upstream message inside a JSON error
/// body when there is one, the placeholder for that status when the body is
/// JSON without a message or blank, and the raw body text otherwise.
pub open spec fn http_error_message(status: u16, body: Seq<char>) -> Seq<char> {
    match json_parse_spec(body) {
        Some(_) => match error_message_in(body) {
            Some(m) => m,
            None => default_status_message(status),
        },
        None => if trim_spec(body).len() == 0 {
            default_status_message(status)
        } else {
            body
        },
    }
}

/// How a classified result must relate to the raw HTTP event: failures below
/// HTTP and unreadable bodies carry no status or payload; a non-success
/// status yields an error with that status, the message of
/// `http_error_message`, and the parsed body as payload when it is JSON; a
/// success yields the parsed stream when one was requested, else the parsed
/// JSON document, and a decode error when the body is not JSON.
pub open spec fn classified(
    event: HttpEvent,
    stream_requested: bool,
    r: Result<ApiOutcome, ApiError>,
) -> bool {
    match event {
        HttpEvent::Transport { detail } => r matches Err(e) && e.status is None && e.message@
            == "network error: "@ + detail@ && e.payload is None,
        HttpEvent::BodyReadFailure { status, detail } => {
            if !is_success_status(status) {
                r matches Err(e) && e.status == Some(status) && e.message@
                    == default_status_message(status) && e.payload is None
            } else if stream_requested {
                r matches Err(e) && e.status is None && e.message@
                    == "failed to read streaming response: "@ + detail@ && e.payload is None
            } else {
                r matches Err(e) && e.status is None && e.message@
                    == "failed to decode json response: "@ + detail@ && e.payload is None
            }
        },
        HttpEvent::Response { status, body } => {
            if !is_success_status(status) {
                r matches Err(e) && e.status == Some(status) && e.message@ == http_error_message(
                    status,
                    body@,
                ) && e.payload == json_parse_spec(body@)
            } else if stream_requested {
                r matches Ok(o) && o matches ApiOutcome::Stream(events) && events@ == sse_events(
                    body@,
                )
            } else {
                match json_parse_spec(body@) {
                    Some(v) => r matches Ok(o) && o matches ApiOutcome::Json(w) && w == v,
                    None => r matches Err(e) && e.status is None && e.message@
                        == "failed to decode json response: "@ + json_err_detail(body@)
                        && e.payload is None,
                }
            }
        },
    }
}

/// Classifies one raw HTTP attempt, as the transport does after reading the
/// response: step by step over the status, the request's stream flag, and
/// the body text.
pub fn classify_response(event: HttpEvent, stream_requested: bool) -> (r: Result<
    ApiOutcome,
    ApiError,
>)
    ensures
        classified(event, stream_requested, r),
{
    match event {
        HttpEvent::Transport { detail } => Err(crate::error::network_error(detail.as_str())),
        HttpEvent::BodyReadFailure { status, detail } => {
            if !(200 <= status && status < 300) {
                Err(ApiError { status: Some(status), message: status_message(status), payload: None })
            } else if stream_requested {
                Err(
                    ApiError {
                        status: None,
                        message: "failed to read streaming response: ".to_owned().concat(
                            detail.as_str(),
                        ),
                        payload: None,
                    },
                )
            } else {
                Err(
                    ApiError {
                        status: None,
                        message: "failed to decode json response: ".to_owned().concat(
                            detail.as_str(),
                        ),
                        payload: None,
                    },
                )
            }
        },
        HttpEvent::Response { status, body } => {
            if !(200 <= status && status < 300) {
                match parse_failure_body(body.as_str()) {
                    Some(parsed) => {
                        let (value, upstream) = parsed;
                        let message = match upstream {
                            Some(m) => m,
                            None => status_message(status),
                        };
                        Err(
                            ApiError {
                                status: Some(status),
                                message,
                                payload: Some(value),
                            },
                        )
                    },
                    None => {
                        let bv = crate::text::chars_vec(body.as_str());
                        let trimmed = trim_vec(&bv);
                        let message = if trimmed.len() == 0 {
                            status_message(status)
                        } else {
                            body
                        };
                        Err(ApiError { status: Some(status), message, payload: None })
                    },
                }
            } else if stream_requested {
                let events = parse_sse_chunks(body.as_str());
                Ok(ApiOutcome::Stream(events))
            } else {
                match parse_json_text(body.as_str()) {
                    Ok(v) => Ok(ApiOutcome::Json(v)),
                    Err(detail) => Err(
                        ApiError {
                            status: None,
                            message: "failed to decode json response: ".to_owned().concat(
                                detail.as_str(),
                            ),
                            payload: None,
                        },
                    ),
                }
            }
        },
    }
}

} // verus!
