//! Tests of the error envelope and the observability middleware.

use timeseries_service::envelope::{AppError, HttpResponse, JsonRejection};
use timeseries_service::middleware::{handle_request, log_app_errors, FAULT_LOG_MESSAGE};

fn rejection(status: u16, text: &str) -> AppError {
    AppError::JsonRejection(JsonRejection { status, body_text: text.to_string() })
}

#[test]
fn decode_failure_answers_with_the_decoders_own_rejection() {
    let err = rejection(400, "Expected value at line 1 column 1");
    let (resp, logs) = handle_request(Err(err));
    assert_eq!(resp.status, 400);
    assert_eq!(resp.body, "Expected value at line 1 column 1");
    assert!(resp.error.is_none());
    assert_eq!(logs.len(), 0);
}

#[test]
fn decode_failure_keeps_unprocessable_entity_status() {
    let err = rejection(422, "missing field `name`");
    let (resp, logs) = handle_request(Err(err));
    assert_eq!(resp.status, 422);
    assert_eq!(resp.body, "missing field `name`");
    assert_eq!(logs.len(), 0);
}

#[test]
fn into_response_carries_no_fault_marker() {
    let err = rejection(415, "Expected request with `Content-Type: application/json`");
    let resp = err.into_response();
    assert_eq!(resp.status, 415);
    assert!(resp.error.is_none());
}

#[test]
fn successful_request_produces_one_response_and_no_log() {
    let ok = HttpResponse { status: 200, body: "[]".to_string(), error: None };
    let (resp, logs) = handle_request(Ok(ok));
    assert_eq!(resp.status, 200);
    assert_eq!(resp.body, "[]");
    assert_eq!(logs.len(), 0);
}

#[test]
fn attached_fault_is_logged_exactly_once() {
    let marked = HttpResponse {
        status: 500,
        body: "internal error".to_string(),
        error: Some(rejection(500, "internal error")),
    };
    let (resp, logs) = handle_request(Ok(marked));
    assert_eq!(resp.status, 500);
    assert_eq!(logs.len(), 1);
    assert_eq!(logs[0].message, FAULT_LOG_MESSAGE);
    match &logs[0].error {
        AppError::JsonRejection(rej) => assert_eq!(rej.body_text, "internal error"),
    }
}

#[test]
fn middleware_passes_the_response_through_unaltered() {
    let marked = HttpResponse {
        status: 503,
        body: "busy".to_string(),
        error: Some(rejection(503, "busy")),
    };
    let (resp, logs) = log_app_errors(marked);
    assert_eq!(resp.status, 503);
    assert_eq!(resp.body, "busy");
    assert_eq!(logs.len(), 1);
}

#[test]
fn unmarked_response_emits_no_record() {
    let plain = HttpResponse { status: 204, body: String::new(), error: None };
    let (resp, logs) = log_app_errors(plain);
    assert_eq!(resp.status, 204);
    assert_eq!(logs.len(), 0);
}
