use rchat::pipeline::{extract_answer, process_response_result, PipelineError, RawOutcome};
use rchat::trace::{Trace, TraceEvent};

const SUCCESS_BODY: &str = r#"{
  "id": "chatcmpl-1",
  "object": "chat.completion",
  "created": 1700000000,
  "model": "gpt-3.5-turbo",
  "usage": {"prompt_tokens": 9, "completion_tokens": 12, "total_tokens": 21},
  "choices": [
    {"index": 0, "message": {"role": "assistant", "content": "Hello there"}, "finish_reason": "stop"},
    {"index": 1, "message": {"role": "assistant", "content": "Second"}, "finish_reason": "length"}
  ]
}"#;

const EMPTY_CHOICES_BODY: &str = r#"{
  "id": "chatcmpl-2",
  "object": "chat.completion",
  "created": 1700000001,
  "model": "gpt-3.5-turbo",
  "usage": {"prompt_tokens": 1, "completion_tokens": 0, "total_tokens": 1},
  "choices": []
}"#;

const QUOTA_BODY: &str =
    r#"{"error":{"message":"quota exceeded","type":"insufficient_quota","code":"insufficient_quota"}}"#;

fn respond(status: u16, body: &str, tracing: bool) -> (Result<String, PipelineError>, Trace) {
    let mut trace = Trace::new(tracing);
    let r = process_response_result(
        RawOutcome::HttpResult { status, body: body.as_bytes().to_vec() },
        &mut trace,
    );
    (r, trace)
}

#[test]
fn success_gives_first_choice_content() {
    let (r, _) = respond(200, SUCCESS_BODY, false);
    assert_eq!(r, Ok("Hello there".to_string()));
}

#[test]
fn empty_choices_give_no_response() {
    let (r, _) = respond(200, EMPTY_CHOICES_BODY, false);
    assert_eq!(r, Ok("No response".to_string()));
}

#[test]
fn quota_exceeded_is_remote_error() {
    let (r, trace) = respond(429, QUOTA_BODY, false);
    assert_eq!(
        r,
        Err(PipelineError::Remote {
            code: "insufficient_quota".to_string(),
            message: "quota exceeded".to_string(),
        })
    );
    assert_eq!(
        r.unwrap_err().message(),
        "Response error insufficient_quota: quota exceeded"
    );
    assert_eq!(
        trace.events(),
        &vec![
            TraceEvent::ResponseSize(QUOTA_BODY.len()),
            TraceEvent::RequestFailed(429)
        ]
    );
}

#[test]
fn invalid_json_with_ok_status_is_malformed() {
    let (r, trace) = respond(200, "this is not json", false);
    assert!(matches!(r, Err(PipelineError::Malformed(_))));
    assert_eq!(trace.events().len(), 2);
    assert!(matches!(trace.events()[1], TraceEvent::Malformed(_)));
}

#[test]
fn transport_failure_is_reported_without_decoding() {
    let mut trace = Trace::new(true);
    let r = process_response_result(
        RawOutcome::TransportError("connection refused".to_string()),
        &mut trace,
    );
    assert_eq!(r, Err(PipelineError::Transport("connection refused".to_string())));
    assert_eq!(
        trace.events(),
        &vec![TraceEvent::TransportFailed("connection refused".to_string())]
    );
    assert_eq!(
        r.unwrap_err().message(),
        "ERROR: Failed get response: connection refused"
    );
}

#[test]
fn body_read_failure_is_its_own_error() {
    let mut trace = Trace::new(false);
    let r = process_response_result(RawOutcome::BodyReadFailure("reset".to_string()), &mut trace);
    assert_eq!(r, Err(PipelineError::BodyReadFailure("reset".to_string())));
    assert_eq!(
        r.unwrap_err().message(),
        "ERROR: Failed read response body in bytes: reset"
    );
}

#[test]
fn no_payload_events_while_tracing_is_off() {
    for (status, body) in [
        (200, SUCCESS_BODY),
        (200, EMPTY_CHOICES_BODY),
        (429, QUOTA_BODY),
        (200, "not json"),
        (500, "{}"),
    ] {
        let (_, trace) = respond(status, body, false);
        assert!(trace.events().iter().all(|e| !e.is_structured()));
    }
    let mut trace = Trace::new(false);
    let _ = process_response_result(RawOutcome::TransportError("down".to_string()), &mut trace);
    assert!(trace.events().iter().all(|e| !e.is_structured()));
}

#[test]
fn raw_body_is_traced_first_while_tracing_is_on() {
    let (_, trace) = respond(200, "not json", true);
    assert_eq!(
        trace.events()[0],
        TraceEvent::ResponseBody(b"not json".to_vec())
    );
    assert!(trace.events()[0].is_structured());
    assert_eq!(trace.events()[1], TraceEvent::ResponseSize(8));
    assert_eq!(trace.events().len(), 3);
}

#[test]
fn status_201_is_read_as_an_error() {
    let (r, _) = respond(201, SUCCESS_BODY, false);
    assert!(matches!(r, Err(PipelineError::Malformed(_))));
    let (r, _) = respond(201, QUOTA_BODY, false);
    assert!(matches!(r, Err(PipelineError::Remote { .. })));
}

#[test]
fn error_status_with_unreadable_body_is_malformed() {
    let (r, trace) = respond(500, "<html>oops</html>", false);
    assert!(matches!(r, Err(PipelineError::Malformed(_))));
    assert_eq!(trace.events().len(), 3);
    assert_eq!(trace.events()[1], TraceEvent::RequestFailed(500));
    let (r, _) = respond(404, r#"{"error":{"message":"m","type":"t"}}"#, false);
    assert!(matches!(r, Err(PipelineError::Malformed(_))));
}

#[test]
fn error_payload_param_may_be_null_or_text() {
    let body = r#"{"error":{"message":"bad","type":"invalid_request_error","param":null,"code":"c1"}}"#;
    let (r, _) = respond(400, body, false);
    assert_eq!(
        r,
        Err(PipelineError::Remote { code: "c1".to_string(), message: "bad".to_string() })
    );
    let body = r#"{"error":{"message":"bad","type":"t","param":"model","code":"c2"}}"#;
    let (r, _) = respond(400, body, false);
    assert_eq!(
        r,
        Err(PipelineError::Remote { code: "c2".to_string(), message: "bad".to_string() })
    );
    let body = r#"{"error":{"message":"bad","type":"t","param":7,"code":"c3"}}"#;
    let (r, _) = respond(400, body, false);
    assert!(matches!(r, Err(PipelineError::Malformed(_))));
}

#[test]
fn missing_field_in_success_payload_is_malformed() {
    let body = SUCCESS_BODY.replace("\"created\": 1700000000,", "");
    let (r, _) = respond(200, &body, false);
    assert!(matches!(r, Err(PipelineError::Malformed(_))));
}

#[test]
fn unknown_fields_are_ignored() {
    let body = SUCCESS_BODY.replace("\"id\":", "\"system_fingerprint\": \"fp\", \"id\":");
    let (r, _) = respond(200, &body, false);
    assert_eq!(r, Ok("Hello there".to_string()));
}

#[test]
fn token_count_beyond_u32_is_malformed() {
    let body = SUCCESS_BODY.replace("\"total_tokens\": 21", "\"total_tokens\": 4294967296");
    let (r, _) = respond(200, &body, false);
    assert!(matches!(r, Err(PipelineError::Malformed(_))));
    let body = SUCCESS_BODY.replace("\"total_tokens\": 21", "\"total_tokens\": 4294967295");
    let (r, _) = respond(200, &body, false);
    assert_eq!(r, Ok("Hello there".to_string()));
}

#[test]
fn unknown_finish_reason_is_kept() {
    let body = SUCCESS_BODY.replace("\"stop\"", "\"function_call\"");
    let (r, _) = respond(200, &body, false);
    assert_eq!(r, Ok("Hello there".to_string()));
}

#[test]
fn answer_is_taken_by_position() {
    let body = SUCCESS_BODY
        .replace("\"index\": 0", "\"index\": 5")
        .replace("\"index\": 1", "\"index\": 0");
    let (r, _) = respond(200, &body, false);
    assert_eq!(r, Ok("Hello there".to_string()));
}

#[test]
fn extract_answer_reads_decoded_payload() {
    let v: serde_json::Value = serde_json::from_str(SUCCESS_BODY).unwrap();
    let p = rchat::messages::PromptResponse::from_json(&v).unwrap();
    assert_eq!(p.id, "chatcmpl-1");
    assert_eq!(p.created, 1700000000);
    assert_eq!(p.usage.total_tokens, 21);
    assert_eq!(p.choices.len(), 2);
    assert_eq!(p.choices[1].finish_reason, "length");
    assert_eq!(extract_answer(&p), "Hello there");
}
