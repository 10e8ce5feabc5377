use deepseek_client::stream::parse_sse_chunks;
use deepseek_client::transport::classify_response;
use deepseek_client::transport::auth_header_value;
use deepseek_client::transport::ApiOutcome;
use deepseek_client::transport::Endpoint;
use deepseek_client::transport::HttpEvent;
use deepseek_client::transport::HttpMethod;

fn json(text: &str) -> serde_json::Value {
    serde_json::from_str(text).unwrap()
}

#[test]
fn stream_parsing_yields_events_in_order_and_stops_at_done() {
    let chunks = parse_sse_chunks("data: {\"a\":1}\n\ndata: {\"a\":2}\n\ndata: [DONE]\n\n");
    assert_eq!(chunks, vec![json("{\"a\":1}"), json("{\"a\":2}")]);

    let with_trailing =
        parse_sse_chunks("data: {\"a\":1}\n\ndata: [DONE]\n\ndata: {\"a\":9}\n\n");
    assert_eq!(with_trailing, vec![json("{\"a\":1}")]);
}

#[test]
fn stream_parsing_drops_malformed_blocks() {
    let chunks = parse_sse_chunks("data: {not json\n\ndata: {\"b\":2}\n\n");
    assert_eq!(chunks, vec![json("{\"b\":2}")]);
}

#[test]
fn stream_parsing_joins_multi_line_data_and_skips_comment_blocks() {
    let chunks = parse_sse_chunks(": heartbeat\n\ndata: [1,\ndata: 2]\n\nretry: 5\n\n");
    assert_eq!(chunks, vec![json("[1,\n2]")]);
}

#[test]
fn stream_sentinel_is_recognized_after_trimming() {
    let chunks = parse_sse_chunks("data: {\"a\":1}\n\ndata:   [DONE]  \n\ndata: {\"a\":2}\n\n");
    assert_eq!(chunks, vec![json("{\"a\":1}")]);
}

#[test]
fn stream_block_without_data_payload_contributes_nothing() {
    let chunks = parse_sse_chunks("data:\n\ndata: 7\n\n");
    assert_eq!(chunks, vec![json("7")]);
}

#[test]
fn stream_parsing_handles_crlf_line_endings() {
    let chunks = parse_sse_chunks("data: {\"a\":1}\r\n\r\ndata: [DONE]\r\n\r\n");
    assert_eq!(chunks, vec![json("{\"a\":1}")]);
}

#[test]
fn classify_extracts_upstream_error_message() {
    let event = HttpEvent::Response {
        status: 400,
        body: "{\"error\":{\"message\":\"use the beta base url\"}}".to_string(),
    };
    match classify_response(event, false) {
        Err(e) => {
            assert_eq!(e.status, Some(400));
            assert_eq!(e.message, "use the beta base url");
            assert!(e.payload.is_some());
        }
        Ok(_) => panic!("expected an error"),
    }
}

#[test]
fn classify_falls_back_to_top_level_message() {
    let event = HttpEvent::Response {
        status: 429,
        body: "{\"message\":\"slow down\"}".to_string(),
    };
    match classify_response(event, false) {
        Err(e) => {
            assert_eq!(e.status, Some(429));
            assert_eq!(e.message, "slow down");
        }
        Ok(_) => panic!("expected an error"),
    }
}

#[test]
fn classify_uses_raw_body_when_not_json_and_placeholder_when_blank() {
    let raw = HttpEvent::Response { status: 502, body: "upstream exploded".to_string() };
    match classify_response(raw, false) {
        Err(e) => {
            assert_eq!(e.status, Some(502));
            assert_eq!(e.message, "upstream exploded");
            assert!(e.payload.is_none());
        }
        Ok(_) => panic!("expected an error"),
    }

    let blank = HttpEvent::Response { status: 503, body: "  \n ".to_string() };
    match classify_response(blank, false) {
        Err(e) => {
            assert_eq!(e.message, "deepseek api error (status 503)");
        }
        Ok(_) => panic!("expected an error"),
    }

    let json_no_message = HttpEvent::Response { status: 500, body: "{\"ok\":false}".to_string() };
    match classify_response(json_no_message, false) {
        Err(e) => {
            assert_eq!(e.message, "deepseek api error (status 500)");
            assert!(e.payload.is_some());
        }
        Ok(_) => panic!("expected an error"),
    }
}

#[test]
fn classify_returns_json_document_on_success() {
    let event = HttpEvent::Response { status: 200, body: "{\"object\":\"list\"}".to_string() };
    match classify_response(event, false) {
        Ok(ApiOutcome::Json(v)) => assert_eq!(v, json("{\"object\":\"list\"}")),
        _ => panic!("expected a json outcome"),
    }
}

#[test]
fn classify_reports_decode_failure_without_status() {
    let event = HttpEvent::Response { status: 200, body: "not json".to_string() };
    match classify_response(event, false) {
        Err(e) => {
            assert_eq!(e.status, None);
            assert!(e.message.starts_with("failed to decode json response: "));
        }
        _ => panic!("expected an error"),
    }
}

#[test]
fn classify_returns_stream_outcome_when_stream_was_requested() {
    let event = HttpEvent::Response {
        status: 200,
        body: "data: {\"c\":3}\n\ndata: [DONE]\n\n".to_string(),
    };
    match classify_response(event, true) {
        Ok(ApiOutcome::Stream(events)) => assert_eq!(events, vec![json("{\"c\":3}")]),
        _ => panic!("expected a stream outcome"),
    }
}

#[test]
fn classify_maps_transport_and_read_failures() {
    match classify_response(HttpEvent::Transport { detail: "boom".to_string() }, false) {
        Err(e) => {
            assert_eq!(e.status, None);
            assert_eq!(e.message, "network error: boom");
        }
        _ => panic!("expected an error"),
    }

    match classify_response(HttpEvent::BodyReadFailure { status: 500, detail: "x".to_string() }, false) {
        Err(e) => {
            assert_eq!(e.status, Some(500));
            assert_eq!(e.message, "deepseek api error (status 500)");
        }
        _ => panic!("expected an error"),
    }

    match classify_response(HttpEvent::BodyReadFailure { status: 200, detail: "cut".to_string() }, true) {
        Err(e) => {
            assert_eq!(e.status, None);
            assert_eq!(e.message, "failed to read streaming response: cut");
        }
        _ => panic!("expected an error"),
    }
}

#[test]
fn endpoints_use_documented_paths_and_methods() {
    assert_eq!(Endpoint::ListModels.path(), "/models");
    assert_eq!(Endpoint::GetUserBalance.path(), "/user/balance");
    assert_eq!(Endpoint::ChatCompletions.path(), "/chat/completions");
    assert_eq!(Endpoint::Completions.path(), "/completions");
    assert_eq!(Endpoint::ListModels.method(), HttpMethod::Get);
    assert_eq!(Endpoint::GetUserBalance.method(), HttpMethod::Get);
    assert_eq!(Endpoint::ChatCompletions.method(), HttpMethod::Post);
    assert_eq!(Endpoint::Completions.method(), HttpMethod::Post);
}

#[test]
fn auth_header_carries_the_credential() {
    assert_eq!(auth_header_value("sk-123"), "Bearer sk-123");
}

#[test]
fn describe_renders_status_and_message() {
    let with_status = deepseek_client::ApiError {
        status: Some(400),
        message: "bad".to_string(),
        payload: None,
    };
    assert_eq!(with_status.describe(), "DeepSeek API error (status 400): bad");

    let without = deepseek_client::ApiError {
        status: None,
        message: "offline".to_string(),
        payload: None,
    };
    assert_eq!(without.describe(), "DeepSeek API error: offline");

    let wide = deepseek_client::ApiError {
        status: Some(65535),
        message: "odd".to_string(),
        payload: None,
    };
    assert_eq!(wide.describe(), "DeepSeek API error (status 65535): odd");
}
