use deepseek_client::client::chat_begin;
use deepseek_client::client::chat_step;
use deepseek_client::client::completion_step;
use deepseek_client::client::validate_chat_call;
use deepseek_client::client::ChatCall;
use deepseek_client::client::ChatPhase;
use deepseek_client::client::ChatStep;
use deepseek_client::client::CompletionCall;
use deepseek_client::client::CompletionPhase;
use deepseek_client::client::CompletionStep;
use deepseek_client::client::RequestContext;
use deepseek_client::config::resolve_settings;
use deepseek_client::transport::ApiOutcome;
use deepseek_client::ApiError;

fn json(text: &str) -> serde_json::Value {
    serde_json::from_str(text).unwrap()
}

fn ctx() -> RequestContext {
    RequestContext::new(
        "sk-test".to_string(),
        "https://api.deepseek.com/",
        120000,
        true,
        "deepseek-chat".to_string(),
    )
}

#[test]
fn context_normalizes_its_base_url() {
    assert_eq!(ctx().base_url, "https://api.deepseek.com");
}

#[test]
fn chat_fallback_scenario_uses_exactly_one_retry() {
    let context = ctx();
    let phase = chat_begin(&Some("deepseek-reasoner".to_string()));
    match &phase {
        ChatPhase::First { model } => assert_eq!(model.as_str(), "deepseek-reasoner"),
        _ => panic!("expected the first attempt"),
    }

    // First transport call fails with 503.
    let failure = ApiError { status: Some(503), message: "busy".to_string(), payload: None };
    let retry_phase = match chat_step(&context, phase, Err(failure)) {
        ChatStep::Retry(p) => p,
        _ => panic!("expected a fallback retry"),
    };
    match &retry_phase {
        ChatPhase::Fallback { from_model, to_model } => {
            assert_eq!(from_model.as_str(), "deepseek-reasoner");
            assert_eq!(to_model.as_str(), "deepseek-chat");
        }
        _ => panic!("expected the fallback attempt"),
    }

    // Second transport call succeeds: the result is tagged with the record.
    let response = ApiOutcome::Json(json("{\"ok\":true}"));
    match chat_step(&context, retry_phase, Ok(response)) {
        ChatStep::Finished(ex) => {
            let record = ex.fallback.expect("a fallback record");
            assert_eq!(record.from_model, "deepseek-reasoner");
            assert_eq!(record.to_model, "deepseek-chat");
            match ex.response {
                ApiOutcome::Json(v) => assert_eq!(v, json("{\"ok\":true}")),
                _ => panic!("expected a json response"),
            }
        }
        _ => panic!("expected the call to finish"),
    }
}

#[test]
fn chat_first_success_carries_no_record_and_other_errors_propagate() {
    let context = ctx();
    let phase = chat_begin(&None);
    match &phase {
        ChatPhase::First { model } => assert_eq!(model.as_str(), "deepseek-chat"),
        _ => panic!("expected the first attempt"),
    }
    match chat_step(&context, phase, Ok(ApiOutcome::Json(json("1")))) {
        ChatStep::Finished(ex) => assert!(ex.fallback.is_none()),
        _ => panic!("expected the call to finish"),
    }

    let phase = chat_begin(&Some("deepseek-chat".to_string()));
    let failure = ApiError { status: Some(503), message: "busy".to_string(), payload: None };
    match chat_step(&context, phase, Err(failure)) {
        ChatStep::Failed(e) => assert_eq!(e.message, "busy"),
        _ => panic!("expected the failure to propagate"),
    }
}

#[test]
fn chat_fallback_failure_propagates_second_error() {
    let context = ctx();
    let phase = ChatPhase::Fallback {
        from_model: "deepseek-reasoner".to_string(),
        to_model: "deepseek-chat".to_string(),
    };
    let second = ApiError { status: Some(500), message: "still busy".to_string(), payload: None };
    match chat_step(&context, phase, Err(second)) {
        ChatStep::Failed(e) => {
            assert_eq!(e.status, Some(500));
            assert_eq!(e.message, "still busy");
        }
        _ => panic!("expected the failure to propagate"),
    }
}

#[test]
fn completion_beta_scenario_reissues_against_beta_base() {
    let context = ctx();
    let failure = ApiError {
        status: Some(400),
        message: "use the beta base url".to_string(),
        payload: None,
    };
    let beta_base = match completion_step(&context, CompletionPhase::First, Err(failure)) {
        CompletionStep::Retry { beta_base_url } => beta_base_url,
        _ => panic!("expected a beta retry"),
    };
    assert_eq!(beta_base, "https://api.deepseek.com/beta");

    // The retried attempt fails too: the second error is returned verbatim.
    let second = ApiError { status: Some(400), message: "still wrong".to_string(), payload: None };
    match completion_step(&context, CompletionPhase::BetaRetry, Err(second)) {
        CompletionStep::Failed(e) => assert_eq!(e.message, "still wrong"),
        _ => panic!("expected the failure to propagate"),
    }
}

#[test]
fn completion_success_paths_tag_beta_use_correctly() {
    let context = ctx();
    match completion_step(&context, CompletionPhase::First, Ok(ApiOutcome::Json(json("1")))) {
        CompletionStep::Finished(ex) => assert!(!ex.used_beta_base),
        _ => panic!("expected the call to finish"),
    }
    match completion_step(&context, CompletionPhase::BetaRetry, Ok(ApiOutcome::Json(json("2")))) {
        CompletionStep::Finished(ex) => assert!(ex.used_beta_base),
        _ => panic!("expected the call to finish"),
    }

    let unrelated = ApiError { status: Some(401), message: "invalid api key".to_string(), payload: None };
    match completion_step(&context, CompletionPhase::First, Err(unrelated)) {
        CompletionStep::Failed(e) => assert_eq!(e.message, "invalid api key"),
        _ => panic!("expected the failure to propagate"),
    }
}

#[test]
fn empty_message_list_is_rejected_at_the_boundary() {
    let empty = ChatCall { model: None, messages: vec![], stream: None };
    match validate_chat_call(&empty) {
        Err(m) => assert_eq!(m, "messages must not be empty"),
        Ok(()) => panic!("expected a rejection"),
    }

    let ok = ChatCall {
        model: None,
        messages: vec![json("{\"role\":\"user\",\"content\":\"hi\"}")],
        stream: None,
    };
    assert!(validate_chat_call(&ok).is_ok());
}

#[test]
fn call_builders_set_and_default_models() {
    let call = ChatCall { model: None, messages: vec![json("{}")], stream: Some(true) };
    let with = call.with_model("deepseek-reasoner".to_string());
    assert_eq!(with.model.as_deref(), Some("deepseek-reasoner"));
    assert!(with.wants_stream());

    let completion = CompletionCall { model: None, prompt: "hi".to_string(), stream: None };
    let defaulted = completion.with_default_model("deepseek-chat".to_string());
    assert_eq!(defaulted.model.as_deref(), Some("deepseek-chat"));
    assert!(!defaulted.wants_stream());

    let kept = CompletionCall {
        model: Some("custom".to_string()),
        prompt: "hi".to_string(),
        stream: Some(false),
    };
    let kept = kept.with_default_model("deepseek-chat".to_string());
    assert_eq!(kept.model.as_deref(), Some("custom"));
    assert!(!kept.wants_stream());
}

#[test]
fn settings_require_a_credential() {
    match resolve_settings(None, None, None, None, None, None) {
        Err(m) => assert_eq!(m, "DEEPSEEK_API_KEY is required"),
        Ok(_) => panic!("expected a configuration error"),
    }
    match resolve_settings(Some("".to_string()), None, None, None, None, None) {
        Err(m) => assert_eq!(m, "DEEPSEEK_API_KEY is required"),
        Ok(_) => panic!("expected a configuration error"),
    }
}

#[test]
fn settings_apply_documented_defaults() {
    let s = resolve_settings(Some("sk".to_string()), None, None, None, None, None).unwrap();
    assert_eq!(s.base_url, "https://api.deepseek.com");
    assert_eq!(s.default_model, "deepseek-chat");
    assert_eq!(s.fallback_model, "deepseek-chat");
    assert!(s.enable_reasoner_fallback);
    assert_eq!(s.timeout_ms, 120000);
}

#[test]
fn settings_respect_explicit_values() {
    let s = resolve_settings(
        Some("sk".to_string()),
        Some("https://alt.example.com/".to_string()),
        Some("my-model".to_string()),
        Some("  ".to_string()),
        Some(" FALSE ".to_string()),
        Some(" 5000 ".to_string()),
    )
    .unwrap();
    assert_eq!(s.base_url, "https://alt.example.com");
    assert_eq!(s.default_model, "my-model");
    assert_eq!(s.fallback_model, "deepseek-chat");
    assert!(!s.enable_reasoner_fallback);
    assert_eq!(s.timeout_ms, 5000);

    let on = resolve_settings(
        Some("sk".to_string()),
        None,
        None,
        None,
        Some(" Yes ".to_string()),
        Some("+42".to_string()),
    )
    .unwrap();
    assert!(on.enable_reasoner_fallback);
    assert_eq!(on.timeout_ms, 42);

    let bad = resolve_settings(
        Some("sk".to_string()),
        None,
        None,
        None,
        Some("0".to_string()),
        Some("99999999999999999999".to_string()),
    )
    .unwrap();
    assert!(!bad.enable_reasoner_fallback);
    assert_eq!(bad.timeout_ms, 120000);

    let junk = resolve_settings(
        Some("sk".to_string()),
        None,
        None,
        None,
        None,
        Some("soon".to_string()),
    )
    .unwrap();
    assert_eq!(junk.timeout_ms, 120000);

    // A model name with visible characters is kept verbatim, untrimmed.
    let spaced = resolve_settings(
        Some("sk".to_string()),
        None,
        Some("  my-model  ".to_string()),
        None,
        None,
        None,
    )
    .unwrap();
    assert_eq!(spaced.default_model, "  my-model  ");
}
