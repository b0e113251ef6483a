//! The closed set of errors that an operation can end in.

use vstd::prelude::*;
use crate::responses::HealthCheckFailureDetails;

verus! {

/// Everything that can go wrong with one operation against the API.
///
/// Every error is returned to the immediate caller as a typed result; the
/// library performs no logging, no retries and no silent recovery.
#[derive(Debug)]
pub enum Error {
    /// The request could not be sent or no response was received.
    TransportFailure,
    /// The API responded with a client error status code (4xx).
    ClientErrorResponse(u16),
    /// The API responded with a server error status code (5xx).
    ServerErrorResponse(u16),
    /// A health check endpoint reported a failing check, with its detail.
    HealthCheckFailed(HealthCheckFailureDetails),
    /// Logical absence found by protocol logic, such as a binding search
    /// with no match; distinct from a raw 404 response.
    NotFound,
    /// A binding deletion found more than one candidate and refused to
    /// guess which one to delete.
    ManyMatchingBindings,
    /// An input was rejected before any network call was made, such as a
    /// header value that is not valid.
    InvalidInput,
    /// A response body did not match the expected shape for a successful
    /// status.
    DeserializationFailure,
}

/// The result of one operation against the API.
pub type Result<T> = core::result::Result<T, Error>;

} // verus!
