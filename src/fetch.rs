use vstd::prelude::*;
use crate::error::{AppError, body_error, body_failed_message, request_error, request_failed_message};

verus! {

#[verifier::external_type_specification]
#[verifier::external_body]
pub struct ExReqwestError(reqwest::Error);

#[verifier::external_type_specification]
#[verifier::external_body]
pub struct ExStatusCode(reqwest::StatusCode);

/// The number of the status code that an error carries, if it carries one.
pub uninterp spec fn status_of_error(e: reqwest::Error) -> Option<u16>;

/// The number that a status code holds.
pub uninterp spec fn code_of(s: reqwest::StatusCode) -> u16;

/// Relies on reqwest's `Error::status`: the status code of the response
/// that the request turned into an error, where there was one. It reads the
/// error's kind alone, so the same error always gives the same answer.
pub assume_specification[ reqwest::Error::status ](e: &reqwest::Error) -> (r: Option<reqwest::StatusCode>)
    ensures
        r is Some <==> status_of_error(*e) is Some,
        r is Some ==> code_of(r->0) == status_of_error(*e)->0,
;

/// Relies on http's `StatusCode::as_u16`: a status code holds a number from
/// 100 to 999, as `StatusCode::from_u16` enforces.
pub assume_specification[ reqwest::StatusCode::as_u16 ](s: &reqwest::StatusCode) -> (r: u16)
    ensures
        r == code_of(*s),
        100 <= r <= 999,
;

/// What came of asking for an archive: the request failed (with the status
/// code it carried, if any), the body could not be read whole, or the whole
/// body was received.
#[derive(Debug)]
pub enum FetchOutcome {
    RequestFailed(Option<u16>),
    BodyFailed,
    Received(Vec<u8>),
}

/// The result that an outcome calls for: the body's bytes, or the message of
/// the error.
pub open spec fn outcome_result(o: FetchOutcome) -> Result<Seq<u8>, Seq<char>> {
    match o {
        FetchOutcome::RequestFailed(status) => Err(request_failed_message(status)),
        FetchOutcome::BodyFailed => Err(body_failed_message()),
        FetchOutcome::Received(bytes) => Ok(bytes@),
    }
}

/// A fetch result as a value: the bytes, or the error's message.
pub open spec fn result_view(r: Result<Vec<u8>, AppError>) -> Result<Seq<u8>, Seq<char>> {
    match r {
        Ok(bytes) => Ok(bytes@),
        Err(e) => Err(e.0@),
    }
}

/// The status code that a failed request carried, if it carried one.
pub fn request_status(err: &reqwest::Error) -> (r: Option<u16>)
    ensures
        r == status_of_error(*err),
        r is Some ==> 100 <= r->0 <= 999,
{
    match err.status() {
        Some(code) => Some(code.as_u16()),
        None => None,
    }
}

/// Turns the outcome of a download into its result: the received bytes as
/// they came, or the error that names what failed.
pub fn fetch_result(outcome: FetchOutcome) -> (r: Result<Vec<u8>, AppError>)
    ensures
        result_view(r) == outcome_result(outcome),
{
    match outcome {
        FetchOutcome::RequestFailed(status) => Err(request_error(status)),
        FetchOutcome::BodyFailed => Err(body_error()),
        FetchOutcome::Received(bytes) => Ok(bytes),
    }
}

} // verus!
