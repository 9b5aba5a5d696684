use gcp_bigquery_client::error::{BQError, NestedResponseError, ResponseError};
use gcp_bigquery_client::response::{
    decimal_string, is_success, process_response, synthesize_response_error,
};

/// Reads a BigQuery error object out of a JSON body, as the caller of
/// `process_response` does before handing it over.
fn structured_error(body: &str) -> Option<ResponseError> {
    let v: serde_json::Value = serde_json::from_str(body).ok()?;
    let e = v.get("error")?;
    let mut errors = Vec::new();
    for item in e.get("errors")?.as_array()? {
        let mut pairs = Vec::new();
        for (k, v) in item.as_object()? {
            pairs.push((k.clone(), v.as_str()?.to_string()));
        }
        pairs.sort();
        errors.push(pairs);
    }
    Some(ResponseError {
        error: NestedResponseError {
            code: e.get("code")?.as_i64()?,
            errors,
            message: e.get("message")?.as_str()?.to_string(),
            status: e.get("status")?.as_str()?.to_string(),
        },
    })
}

/// The whole treatment of a response: interpret it, then deserialise the
/// payload of a success.
fn call_process_response(status: u16, body: &str) -> Result<serde_json::Value, BQError> {
    let structured = if is_success(status) { None } else { structured_error(body) };
    let payload = process_response(status, body, structured)?;
    serde_json::from_str(payload).map_err(BQError::SerializationError)
}

fn response_error(r: Result<serde_json::Value, BQError>) -> NestedResponseError {
    match r {
        Err(BQError::ResponseError { error }) => error.error,
        other => panic!("Expected ResponseError, got: {:?}", other),
    }
}

#[test]
fn test_success_with_valid_json_body() {
    let result = call_process_response(200, r#"{"kind":"bigquery#job","status":{"state":"DONE"}}"#);
    assert!(result.is_ok(), "Should deserialize valid JSON body");
    let val = result.unwrap();
    assert_eq!(val["kind"], "bigquery#job");
}

#[test]
fn test_success_with_empty_body_returns_serialization_error() {
    let result = call_process_response(200, "");
    assert!(result.is_err());
    let err_debug = format!("{:?}", result.unwrap_err());
    assert!(
        err_debug.contains("SerializationError"),
        "Empty success body should produce SerializationError, got: {}",
        err_debug
    );
}

#[test]
fn test_success_with_invalid_json_body_returns_serialization_error() {
    let result = call_process_response(200, "not valid json{{{");
    assert!(result.is_err());
    let err_debug = format!("{:?}", result.unwrap_err());
    assert!(
        err_debug.contains("SerializationError"),
        "Invalid JSON body should produce SerializationError, got: {}",
        err_debug
    );
}

#[test]
fn test_error_with_structured_json_body() {
    let body = r#"{
        "error": {
            "code": 403,
            "message": "Access Denied: Job project-123:job-456. The user does not have bigquery.jobs.update permission.",
            "errors": [{"message": "Access Denied", "domain": "global", "reason": "accessDenied"}],
            "status": "PERMISSION_DENIED"
        }
    }"#;
    let result = call_process_response(403, body);
    assert!(result.is_err());
    let error = response_error(result);
    assert_eq!(error.code, 403);
    assert!(
        error.message.contains("Access Denied"),
        "Should contain actual BQ error message, got: {}",
        error.message
    );
    assert!(
        error.message.contains("bigquery.jobs.update"),
        "Should contain permission name, got: {}",
        error.message
    );
    assert_eq!(error.status, "PERMISSION_DENIED");
    assert_eq!(error.errors.len(), 1);
}

#[test]
fn test_error_with_empty_body_synthesizes_response_error() {
    let result = call_process_response(403, "");
    assert!(result.is_err());
    let error = response_error(result);
    assert_eq!(error.code, 403);
    assert!(
        error.message.contains("HTTP 403"),
        "Should contain HTTP status in message, got: {}",
        error.message
    );
    assert!(
        error.message.contains("empty response body"),
        "Should mention empty body, got: {}",
        error.message
    );
}

#[test]
fn test_error_with_html_body_synthesizes_response_error() {
    let html = "<html><body><h1>502 Bad Gateway</h1></body></html>";
    let result = call_process_response(502, html);
    assert!(result.is_err());
    let error = response_error(result);
    assert_eq!(error.code, 502);
    assert!(error.message.contains("502"), "Should contain status code, got: {}", error.message);
    assert!(
        error.message.contains("Bad Gateway"),
        "Should contain raw body, got: {}",
        error.message
    );
}

#[test]
fn test_error_404_with_empty_body() {
    let result = call_process_response(404, "");
    assert!(result.is_err());
    let error = response_error(result);
    assert_eq!(error.code, 404);
    assert!(
        error.message.contains("HTTP 404"),
        "Message should include HTTP 404, got: {}",
        error.message
    );
}

#[test]
fn synthesized_messages_exactly() {
    let e = response_error(call_process_response(403, ""));
    assert_eq!(e.message, "HTTP 403 Forbidden (empty response body)");
    assert_eq!(e.status, "403 Forbidden");
    assert!(e.errors.is_empty());

    let html = "<html><body><h1>502 Bad Gateway</h1></body></html>";
    let e = response_error(call_process_response(502, html));
    assert_eq!(e.message, format!("HTTP 502 Bad Gateway: {}", html));
    assert_eq!(e.status, "502 Bad Gateway");

    let e = response_error(call_process_response(404, "gone"));
    assert_eq!(e.message, "HTTP 404 Not Found: gone");
}

#[test]
fn status_without_reason_phrase() {
    let e = response_error(call_process_response(599, ""));
    assert_eq!(e.code, 599);
    assert_eq!(e.message, "HTTP 599  (empty response body)");
    assert_eq!(e.status, "599 <unknown status code>");

    let e = synthesize_response_error(42, None, "x");
    assert_eq!(e.error.message, "HTTP 42 : x");
    assert_eq!(e.error.status, "42 <unknown status code>");
}

#[test]
fn body_that_is_not_an_error_object_is_synthesized() {
    let e = response_error(call_process_response(500, r#"{"kind":"x"}"#));
    assert_eq!(e.code, 500);
    assert_eq!(e.message, r#"HTTP 500 Internal Server Error: {"kind":"x"}"#);
}

#[test]
fn success_range_is_200_to_299() {
    assert!(!is_success(199));
    assert!(is_success(200));
    assert!(is_success(204));
    assert!(is_success(299));
    assert!(!is_success(300));
    assert!(!is_success(404));
}

#[test]
fn success_passes_the_body_through() {
    let body = "anything at all";
    match process_response(201, body, None) {
        Ok(b) => assert_eq!(b, body),
        Err(e) => panic!("unexpected error {:?}", e),
    }
}

#[test]
fn decimal_notation() {
    assert_eq!(decimal_string(0), "0");
    assert_eq!(decimal_string(7), "7");
    assert_eq!(decimal_string(10), "10");
    assert_eq!(decimal_string(403), "403");
    assert_eq!(decimal_string(65535), "65535");
}

#[test]
fn test_error_display_format_is_human_readable() {
    let err_display = call_process_response(403, "").unwrap_err().to_string();
    assert!(
        err_display.contains("403"),
        "Display format should include status code for operators, got: {}",
        err_display
    );
    assert_eq!(
        err_display,
        "Response error (403 Forbidden): HTTP 403 Forbidden (empty response body)"
    );
}

#[test]
fn other_errors_are_described() {
    let err = call_process_response(200, "not json").unwrap_err();
    assert!(err.to_string().starts_with("Serialization error: "));
    assert!(err.to_string().len() > "Serialization error: ".len());
}

#[test]
fn error_object_with_non_string_entry_is_not_structured() {
    let body = r#"{"error":{"code":400,"message":"m","errors":[{"reason":7}],"status":"INVALID"}}"#;
    let e = response_error(call_process_response(400, body));
    assert_eq!(e.code, 400);
    assert_eq!(e.message, format!("HTTP 400 Bad Request: {}", body));
}

#[test]
fn structured_error_entries_keep_their_pairs() {
    let body = r#"{"error":{"code":403,"message":"m","errors":[{"reason":"r","domain":"d"}],"status":"S"}}"#;
    let e = response_error(call_process_response(403, body));
    assert_eq!(
        e.errors,
        vec![vec![
            ("domain".to_string(), "d".to_string()),
            ("reason".to_string(), "r".to_string())
        ]]
    );
}
