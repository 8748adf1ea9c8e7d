//! The error-observability middleware: the single place where handler
//! failures become log records.
//!
//! It wraps every request's pipeline: after the downstream stages produce a
//! response, it inspects the response for an attached fault marker and emits
//! exactly one structured log record when one is present — and none
//! otherwise. It never alters the response itself.

use vstd::prelude::*;
use vstd::string::StringExecFns;
use crate::envelope::{AppError, HttpResponse};

verus! {

/// The fixed tag every handler-fault log record carries.
pub const FAULT_LOG_MESSAGE: &'static str = "an unexpected error occurred inside a handler";

/// One structured log record: the fixed fault tag together with the error
/// exactly as it was attached to the response.
#[derive(Debug)]
pub struct LogRecord {
    pub message: String,
    pub error: AppError,
}

/// Inspects an outgoing response and logs any attached fault, exactly once.
///
/// The response passes through unaltered. A record is emitted if and only if
/// the response carries a fault marker, and it carries that error verbatim —
/// so no failure is dropped and none is reported twice.
pub fn log_app_errors(response: HttpResponse) -> (r: (HttpResponse, Vec<LogRecord>))
    ensures
        r.0 == response,
        response.error is None ==> r.1@.len() == 0,
        response.error matches Some(err) ==> (r.1@.len() == 1 && r.1@[0].error == err
            && r.1@[0].message@ == FAULT_LOG_MESSAGE@),
{
    match &response.error {
        None => (response, Vec::new()),
        Some(err) => {
            let record = LogRecord {
                message: String::from_str(FAULT_LOG_MESSAGE),
                error: err.clone(),
            };
            let mut logs: Vec<LogRecord> = Vec::new();
            logs.push(record);
            (response, logs)
        },
    }
}

/// Runs the response half of the pipeline for one request.
///
/// The handler's outcome — a produced response, or a request-body decode
/// failure — becomes exactly one response, observed once by the logging
/// stage. A decode failure answers with the decoder's own status and message
/// and is never logged as a fault; a fault attached by a handler is logged
/// exactly once.
pub fn handle_request(outcome: Result<HttpResponse, AppError>) -> (r: (HttpResponse, Vec<
    LogRecord,
>))
    ensures
        r.1@.len() <= 1,
        outcome matches Ok(resp) ==> r.0 == resp,
        outcome matches Ok(resp) ==> (resp.error is None ==> r.1@.len() == 0),
        outcome matches Ok(resp) ==> (resp.error matches Some(err) ==> (r.1@.len() == 1
            && r.1@[0].error == err)),
        outcome matches Err(err) ==> (r.0.status == err.response_status() && r.0.body@
            == err.response_message() && r.0.error is None && r.1@.len() == 0),
{
    let response = match outcome {
        Ok(resp) => resp,
        Err(err) => err.into_response(),
    };
    log_app_errors(response)
}

} // verus!
