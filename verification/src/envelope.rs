//! The error envelope: the single tagged shape every request failure is
//! normalized into before it leaves the process.

use vstd::prelude::*;

verus! {

/// What the JSON body decoder reports when an inbound request body fails
/// syntax or schema validation: the decoder's own status code and its
/// human-readable description of the failure.
#[derive(Debug)]
pub struct JsonRejection {
    pub status: u16,
    pub body_text: String,
}

/// The kinds of errors a request can hit. A closed, extensible tagged union:
/// a future handler error is expected to become a new variant here, not a new
/// response shape.
#[derive(Debug)]
pub enum AppError {
    /// The request body contained invalid JSON.
    JsonRejection(JsonRejection),
}

/// One response about to leave the process: its status, the message of its
/// body, and the fault marker a failed handler attaches. The marker is what
/// the observability middleware inspects; a client-input error carries none.
#[derive(Debug)]
pub struct HttpResponse {
    pub status: u16,
    pub body: String,
    pub error: Option<AppError>,
}

impl Clone for JsonRejection {
    fn clone(&self) -> (r: Self)
        ensures
            r == *self,
    {
        JsonRejection { status: self.status, body_text: self.body_text.clone() }
    }
}

impl Clone for AppError {
    fn clone(&self) -> (r: Self)
        ensures
            r == *self,
    {
        match self {
            AppError::JsonRejection(rej) => AppError::JsonRejection(rej.clone()),
        }
    }
}

impl AppError {
    /// The status code of the response this error converts into: taken
    /// verbatim from the decoder's rejection.
    pub open spec fn response_status(&self) -> u16 {
        match self {
            AppError::JsonRejection(rej) => rej.status,
        }
    }

    /// The body message of the response this error converts into: taken
    /// verbatim from the decoder's rejection.
    pub open spec fn response_message(&self) -> Seq<char> {
        match self {
            AppError::JsonRejection(rej) => rej.body_text@,
        }
    }

    /// Whether this error is bad client input rather than a server fault.
    /// Client input errors are never logged as faults.
    pub open spec fn is_client_error(&self) -> bool {
        match self {
            AppError::JsonRejection(_) => true,
        }
    }

    /// Converts the error into the uniform error response: the failure's own
    /// status with its message as the body. A client-input error attaches no
    /// fault marker, so the observability stage stays silent about it.
    pub fn into_response(self) -> (r: HttpResponse)
        ensures
            r.status == self.response_status(),
            r.body@ == self.response_message(),
            r.error is None,
    {
        match self {
            AppError::JsonRejection(rej) => HttpResponse {
                status: rej.status,
                body: rej.body_text,
                error: None,
            },
        }
    }
}

} // verus!
