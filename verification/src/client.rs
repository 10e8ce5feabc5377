//! The client's immutable request context, the typed call descriptions, and
//! the per-call state machines that drive one attempt plus at most one
//! policy-directed re-attempt.

use vstd::prelude::*;

use crate::error::ApiError;
use crate::policy::beta_retry_spec;
use crate::policy::reasoner_fallback_spec;
use crate::policy::should_fallback_reasoner;
use crate::policy::should_retry_completion_beta;
use crate::transport::ApiOutcome;
use crate::urls::beta_spec;
use crate::urls::build_beta_base_url;
use crate::urls::lemma_norm_idempotent;
use crate::urls::norm_spec;
use crate::urls::normalize_base_url;

verus! {

/// The immutable per-process configuration of the API client.
pub struct RequestContext {
    pub api_key: String,
    /// Invariant: normalized, i.e. free of trailing slashes.
    pub base_url: String,
    pub timeout_ms: u64,
    pub enable_reasoner_fallback: bool,
    pub fallback_model: String,
}

impl RequestContext {
    /// The base URL is kept normalized.
    pub open spec fn wf(&self) -> bool {
        self.base_url@ == norm_spec(self.base_url@)
    }

    /// Builds a context, normalizing the base URL.
    pub fn new(
        api_key: String,
        base_url: &str,
        timeout_ms: u64,
        enable_reasoner_fallback: bool,
        fallback_model: String,
    ) -> (r: Self)
        ensures
            r.api_key == api_key,
            r.base_url@ == norm_spec(base_url@),
            r.timeout_ms == timeout_ms,
            r.enable_reasoner_fallback == enable_reasoner_fallback,
            r.fallback_model == fallback_model,
            r.wf(),
    {
        let b = normalize_base_url(base_url);
        proof {
            lemma_norm_idempotent(base_url@);
        }
        RequestContext {
            api_key,
            base_url: b,
            timeout_ms,
            enable_reasoner_fallback,
            fallback_model,
        }
    }
}

/// A chat completion call, as far as the client's decisions read it: the
/// requested model, the messages (opaque JSON documents, extensions
/// preserved), and the stream flag.
pub struct ChatCall {
    pub model: Option<String>,
    pub messages: Vec<serde_json::Value>,
    pub stream: Option<bool>,
}

impl ChatCall {
    /// Returns the call with the model set.
    pub fn with_model(self, model: String) -> (r: Self)
        ensures
            r.model == Some(model),
            r.messages == self.messages,
            r.stream == self.stream,
    {
        ChatCall { model: Some(model), messages: self.messages, stream: self.stream }
    }

    /// Whether this call asks for a streamed response.
    pub fn wants_stream(&self) -> (r: bool)
        ensures
            r == (self.stream == Some(true)),
    {
        match self.stream {
            Some(b) => b,
            None => false,
        }
    }
}

/// A legacy completion call, as far as the client's decisions read it.
pub struct CompletionCall {
    pub model: Option<String>,
    pub prompt: String,
    pub stream: Option<bool>,
}

impl CompletionCall {
    /// Returns the call with the model defaulted when absent.
    pub fn with_default_model(self, default_model: String) -> (r: Self)
        ensures
            self.model is Some ==> r.model == self.model,
            self.model is None ==> r.model == Some(default_model),
            r.prompt == self.prompt,
            r.stream == self.stream,
    {
        match self.model {
            Some(m) => CompletionCall { model: Some(m), prompt: self.prompt, stream: self.stream },
            None => CompletionCall {
                model: Some(default_model),
                prompt: self.prompt,
                stream: self.stream,
            },
        }
    }

    /// Whether this call asks for a streamed response.
    pub fn wants_stream(&self) -> (r: bool)
        ensures
            r == (self.stream == Some(true)),
    {
        match self.stream {
            Some(b) => b,
            None => false,
        }
    }
}

/// Rejects a chat call whose message list is empty, as the tool layer does
/// before the client is invoked.
pub fn validate_chat_call(call: &ChatCall) -> (r: Result<(), String>)
    ensures
        r is Err <==> call.messages@.len() == 0,
        r matches Err(m) ==> m@ == "messages must not be empty"@,
{
    if call.messages.len() == 0 {
        Err("messages must not be empty".to_owned())
    } else {
        Ok(())
    }
}

/// A record that a chat result came from the fallback model.
pub struct FallbackRecord {
    pub from_model: String,
    pub to_model: String,
}

/// A finished chat call: the response, and the fallback record when the
/// fallback attempt produced it.
pub struct ChatExecution {
    pub response: ApiOutcome,
    pub fallback: Option<FallbackRecord>,
}

/// Which attempt of a chat call is in flight.
pub enum ChatPhase {
    First { model: String },
    Fallback { from_model: String, to_model: String },
}

/// What to do after one chat attempt: hand back a result, fail, or issue
/// exactly one more attempt with the given phase.
pub enum ChatStep {
    Finished(ChatExecution),
    Failed(ApiError),
    Retry(ChatPhase),
}

/// Starts a chat call: the first attempt uses the requested model, or the
/// standard chat model when none was requested.
pub fn chat_begin(requested_model: &Option<String>) -> (r: ChatPhase)
    ensures
        r matches ChatPhase::First { model } && model@ == (match requested_model {
            Some(m) => m@,
            None => "deepseek-chat"@,
        }),
{
    match requested_model {
        Some(m) => ChatPhase::First { model: m.clone() },
        None => ChatPhase::First { model: "deepseek-chat".to_owned() },
    }
}

/// How the chat state machine must answer one attempt's outcome: a first
/// success finishes without a record; a first failure retries with the
/// fallback model exactly when the reasoner-fallback policy fires, else
/// fails; a fallback success finishes tagged with the fallback record; a
/// fallback failure propagates that second failure.
pub open spec fn chat_step_spec(
    ctx: RequestContext,
    phase: ChatPhase,
    outcome: Result<ApiOutcome, ApiError>,
    r: ChatStep,
) -> bool {
    match phase {
        ChatPhase::First { model } => match outcome {
            Ok(o) => r matches ChatStep::Finished(ex) && ex.response == o && ex.fallback is None,
            Err(e) => if reasoner_fallback_spec(
                ctx.enable_reasoner_fallback,
                model@,
                ctx.fallback_model@,
                e.status,
            ) {
                r matches ChatStep::Retry(p) && p matches ChatPhase::Fallback {
                    from_model,
                    to_model,
                } && from_model@ == model@ && to_model@ == ctx.fallback_model@
            } else {
                r matches ChatStep::Failed(e2) && e2 == e
            },
        },
        ChatPhase::Fallback { from_model, to_model } => match outcome {
            Ok(o) => r matches ChatStep::Finished(ex) && ex.response == o && (ex.fallback matches
                Some(rec) && rec.from_model@ == from_model@ && rec.to_model@ == to_model@),
            Err(e) => r matches ChatStep::Failed(e2) && e2 == e,
        },
    }
}

/// Answers one chat attempt's outcome. A retry is only ever issued from the
/// first attempt, so at most one fallback attempt is made per call.
pub fn chat_step(
    ctx: &RequestContext,
    phase: ChatPhase,
    outcome: Result<ApiOutcome, ApiError>,
) -> (r: ChatStep)
    ensures
        chat_step_spec(*ctx, phase, outcome, r),
        r is Retry ==> phase is First,
{
    match phase {
        ChatPhase::First { model } => match outcome {
            Ok(o) => ChatStep::Finished(ChatExecution { response: o, fallback: None }),
            Err(e) => {
                if should_fallback_reasoner(
                    ctx.enable_reasoner_fallback,
                    ctx.fallback_model.as_str(),
                    model.as_str(),
                    &e,
                ) {
                    ChatStep::Retry(
                        ChatPhase::Fallback {
                            from_model: model,
                            to_model: ctx.fallback_model.clone(),
                        },
                    )
                } else {
                    ChatStep::Failed(e)
                }
            },
        },
        ChatPhase::Fallback { from_model, to_model } => match outcome {
            Ok(o) => ChatStep::Finished(
                ChatExecution {
                    response: o,
                    fallback: Some(FallbackRecord { from_model, to_model }),
                },
            ),
            Err(e) => ChatStep::Failed(e),
        },
    }
}

/// A finished legacy completion call: the response, and whether the beta
/// base URL was used to obtain it.
pub struct CompletionExecution {
    pub response: ApiOutcome,
    pub used_beta_base: bool,
}

/// Which attempt of a completion call is in flight.
pub enum CompletionPhase {
    First,
    BetaRetry,
}

/// What to do after one completion attempt: hand back a result, fail, or
/// reissue the identical payload once against the given beta base URL.
pub enum CompletionStep {
    Finished(CompletionExecution),
    Failed(ApiError),
    Retry { beta_base_url: String },
}

/// How the completion state machine must answer one attempt's outcome: a
/// first success finishes untagged; a first failure retries against the
/// beta base URL exactly when the beta-retry policy fires, else fails; a
/// retried success finishes tagged as having used the beta base; a retried
/// failure propagates that second failure.
pub open spec fn completion_step_spec(
    ctx: RequestContext,
    phase: CompletionPhase,
    outcome: Result<ApiOutcome, ApiError>,
    r: CompletionStep,
) -> bool {
    match phase {
        CompletionPhase::First => match outcome {
            Ok(o) => r matches CompletionStep::Finished(ex) && ex.response == o
                && ex.used_beta_base == false,
            Err(e) => if beta_retry_spec(e.message@) {
                r matches CompletionStep::Retry { beta_base_url } && beta_base_url@ == beta_spec(
                    ctx.base_url@,
                )
            } else {
                r matches CompletionStep::Failed(e2) && e2 == e
            },
        },
        CompletionPhase::BetaRetry => match outcome {
            Ok(o) => r matches CompletionStep::Finished(ex) && ex.response == o
                && ex.used_beta_base == true,
            Err(e) => r matches CompletionStep::Failed(e2) && e2 == e,
        },
    }
}

/// Answers one completion attempt's outcome. A retry is only ever issued
/// from the first attempt, so at most one beta attempt is made per call.
pub fn completion_step(
    ctx: &RequestContext,
    phase: CompletionPhase,
    outcome: Result<ApiOutcome, ApiError>,
) -> (r: CompletionStep)
    ensures
        completion_step_spec(*ctx, phase, outcome, r),
        r is Retry ==> phase is First,
{
    match phase {
        CompletionPhase::First => match outcome {
            Ok(o) => CompletionStep::Finished(
                CompletionExecution { response: o, used_beta_base: false },
            ),
            Err(e) => {
                if should_retry_completion_beta(&e) {
                    CompletionStep::Retry {
                        beta_base_url: build_beta_base_url(ctx.base_url.as_str()),
                    }
                } else {
                    CompletionStep::Failed(e)
                }
            },
        },
        CompletionPhase::BetaRetry => match outcome {
            Ok(o) => CompletionStep::Finished(
                CompletionExecution { response: o, used_beta_base: true },
            ),
            Err(e) => CompletionStep::Failed(e),
        },
    }
}

} // verus!
