use crate::error::{Error, ErrorBody, ErrorResponse};
use ureq::Error as TransportError;
use vstd::prelude::*;

verus! {

/// What a successful run reports.
#[derive(Clone, Debug)]
pub struct RunResult {
    pub stdout: String,
    pub stderr: String,
    pub error: String,
}

/// What the transport handed back for one request.
#[derive(Debug)]
pub enum Reply {
    /// No HTTP response was produced; the transport's error, where it gave one.
    NoResponse(Option<TransportError>),
    /// An HTTP response arrived with this status code.
    Status(u16),
}

/// How the body of a response that arrived is to be read.
#[derive(Clone, Copy, Debug, PartialEq, Eq, Structural)]
pub enum Expect {
    /// A success status: the body is a run result.
    RunResult,
    /// A failure status: the body is an error body, reported with this code.
    ErrorBody(u16),
}

/// A status code in the success range.
pub open spec fn is_success(status_code: u16) -> bool {
    200 <= status_code <= 299
}

/// Whether a status code is a success: 200 to 299.
pub fn is_success_status(status_code: u16) -> (r: bool)
    ensures
        r == is_success(status_code),
{
    200 <= status_code && status_code <= 299
}

/// Classifies what the transport handed back: a failure without a response
/// becomes `Request` (or `EmptySynthetic` where no cause was given); a response
/// that arrived says which body to read.
pub fn check_response(reply: Reply) -> (r: Result<Expect, Error>)
    ensures
        match reply {
            Reply::NoResponse(Some(e)) => r matches Err(Error::Request(x)) && x == e,
            Reply::NoResponse(None) => r matches Err(Error::EmptySynthetic()),
            Reply::Status(c) => if is_success(c) {
                r == Ok::<Expect, Error>(Expect::RunResult)
            } else {
                r == Ok::<Expect, Error>(Expect::ErrorBody(c))
            },
        },
{
    match reply {
        Reply::NoResponse(Some(e)) => Err(Error::Request(e)),
        Reply::NoResponse(None) => Err(Error::EmptySynthetic()),
        Reply::Status(c) => {
            if is_success_status(c) {
                Ok(Expect::RunResult)
            } else {
                Ok(Expect::ErrorBody(c))
            }
        },
    }
}

/// The error for a failure status, from the outcome of reading its body as an
/// error body: `ResponseNotOk` with the code and body, or
/// `DeserializeErrorResponse`.
pub fn error_response(status_code: u16, body: Result<ErrorBody, std::io::Error>) -> (r: Error)
    ensures
        match body {
            Ok(b) => r matches Error::ResponseNotOk(x) && x.status_code == status_code && x.body
                == b,
            Err(e) => r matches Error::DeserializeErrorResponse(x) && x == e,
        },
{
    match body {
        Ok(b) => Error::ResponseNotOk(ErrorResponse { status_code, body: b }),
        Err(e) => Error::DeserializeErrorResponse(e),
    }
}

/// The outcome for a success status, from the outcome of reading its body as
/// a run result: the result, or `DeserializeResponse`.
pub fn run_result(body: Result<RunResult, std::io::Error>) -> (r: Result<RunResult, Error>)
    ensures
        match body {
            Ok(b) => r == Ok::<RunResult, Error>(b),
            Err(e) => r matches Err(Error::DeserializeResponse(x)) && x == e,
        },
{
    match body {
        Ok(b) => Ok(b),
        Err(e) => Err(Error::DeserializeResponse(e)),
    }
}

} // verus!
