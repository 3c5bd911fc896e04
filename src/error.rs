use vstd::prelude::*;
use crate::decimal::{append_decimal, decimal};

verus! {

/// The error of a download: a message for whoever reports it, nothing more.
#[derive(Debug, Clone)]
pub struct AppError(pub String);

impl AppError {
    /// The message this error carries.
    pub fn message(&self) -> (r: &str)
        ensures
            r@ == self.0@,
    {
        self.0.as_str()
    }
}

/// The message of a failed request: it names the HTTP status code when the
/// failure carried one.
pub open spec fn request_failed_message(status: Option<u16>) -> Seq<char> {
    match status {
        Some(code) => "Request failed with the code: "@ + decimal(code as nat) + "."@,
        None => "Request failed."@,
    }
}

/// The message of a response whose body could not be read whole.
pub open spec fn body_failed_message() -> Seq<char> {
    "Couldn't get the response body as bytes."@
}

/// The error for a request that failed, with the status code it carried, if
/// any.
pub fn request_error(status: Option<u16>) -> (r: AppError)
    ensures
        r.0@ == request_failed_message(status),
{
    match status {
        Some(code) => {
            let mut msg = String::from_str("Request failed with the code: ");
            append_decimal(&mut msg, code);
            msg.append(".");
            AppError(msg)
        },
        None => AppError(String::from_str("Request failed.")),
    }
}

/// The error for a response whose body could not be read whole.
pub fn body_error() -> (r: AppError)
    ensures
        r.0@ == body_failed_message(),
{
    AppError(String::from_str("Couldn't get the response body as bytes."))
}

} // verus!
