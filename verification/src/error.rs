//! The error of a request handler, and what the client is told of it.

use vstd::prelude::*;

verus! {

/// `anyhow::Error`, carried opaquely as the cause of a failure.
#[verifier::external_type_specification]
#[verifier::external_body]
pub struct ExAnyhowError(anyhow::Error);

/// `serde_json::Error`, carried opaquely until it becomes a cause.
#[verifier::external_type_specification]
#[verifier::external_body]
pub struct ExJsonError(serde_json::Error);

/// A failure while answering a request. The cause is kept for the log; the
/// client only learns that something went wrong.
pub struct AppError(pub anyhow::Error);

/// The message every failed request is answered with.
pub open spec fn generic_error_message() -> Seq<char> {
    "Something went wrong with the request"@
}

impl AppError {
    /// The failure of a JSON encoding, kept as its cause.
    pub fn from_json(err: serde_json::Error) -> (r: AppError) {
        AppError(json_error_cause(err))
    }

    /// The status a failed request is answered with: 500, whatever the cause.
    pub fn status_code(&self) -> (r: u16)
        ensures
            r == 500,
    {
        500
    }

    /// The body a failed request is answered with, the same for every cause
    /// so that no internal detail leaks.
    pub fn client_message(&self) -> (r: &'static str)
        ensures
            r@ == generic_error_message(),
    {
        "Something went wrong with the request"
    }
}

/// `anyhow::Error::new`: wraps a `serde_json` error as a cause. Nothing is
/// claimed of the result, which is opaque here.
#[verifier::external_body]
fn json_error_cause(err: serde_json::Error) -> anyhow::Error {
    anyhow::Error::new(err)
}

} // verus!
