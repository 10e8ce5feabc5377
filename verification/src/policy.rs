//! The two retry policies: model-substitution fallback for chat calls and
//! beta-endpoint relocation for legacy completion calls. Both are pure
//! decision functions over the call metadata and a failed attempt.

use vstd::prelude::*;

use crate::error::ApiError;

verus! {

/// The statuses on which a failed chat call to the reasoning model may be
/// retried with the fallback model; a missing status (network-level failure)
/// always qualifies.
pub open spec fn retryable_chat_status(status: Option<u16>) -> bool {
    match status {
        None => true,
        Some(c) => c == 408 || c == 409 || c == 429 || c == 500 || c == 502 || c == 503 || c
            == 504,
    }
}

/// The reasoner fallback fires exactly when it is enabled, the requested
/// model is the reasoning model, the configured fallback model differs from
/// it, and the failure is network-level or carries a retryable status.
pub open spec fn reasoner_fallback_spec(
    enabled: bool,
    model: Seq<char>,
    fallback_model: Seq<char>,
    status: Option<u16>,
) -> bool {
    enabled && model == "deepseek-reasoner"@ && fallback_model != model && retryable_chat_status(
        status,
    )
}

/// Decides whether a failed chat call should be reissued with the fallback
/// model.
pub fn should_fallback_reasoner(
    enabled: bool,
    fallback_model: &str,
    model: &str,
    error: &ApiError,
) -> (r: bool)
    ensures
        r == reasoner_fallback_spec(enabled, model@, fallback_model@, error.status),
{
    if !enabled {
        return false;
    }
    if !crate::text::str_eq(model, "deepseek-reasoner") {
        return false;
    }
    if crate::text::str_eq(fallback_model, model) {
        return false;
    }
    match error.status {
        None => true,
        Some(code) => code == 408 || code == 409 || code == 429 || code == 500 || code == 502
            || code == 503 || code == 504,
    }
}

/// The beta retry fires exactly when the failure message contains, under
/// ASCII case folding, one of `beta`, `base url`, `base_url` or `/beta`.
pub open spec fn beta_retry_spec(message: Seq<char>) -> bool {
    crate::text::contains_ci(message, "beta"@) || crate::text::contains_ci(message, "base url"@)
        || crate::text::contains_ci(message, "base_url"@) || crate::text::contains_ci(
        message,
        "/beta"@,
    )
}

/// Decides whether a failed legacy completion call should be reissued
/// against the beta base URL.
pub fn should_retry_completion_beta(error: &ApiError) -> (r: bool)
    ensures
        r == beta_retry_spec(error.message@),
{
    let mv = crate::text::chars_vec(error.message.as_str());
    crate::text::find_ci(&mv, "beta") || crate::text::find_ci(&mv, "base url")
        || crate::text::find_ci(&mv, "base_url") || crate::text::find_ci(&mv, "/beta")
}

} // verus!
