//! A typed client library for the RabbitMQ HTTP API.
//!
//! The verified core covers percent-encoded path construction, HTTP status
//! classification under per-call policies, request body construction with
//! omission of absent optional fields, the binding deletion resolution
//! protocol, health check outcome decoding, and salted password hashing.

use vstd::prelude::*;

pub mod bindings;
pub mod classifier;
pub mod commons;
pub mod encoding;
pub mod errors;
pub mod json;
pub mod password_hashing;
pub mod paths;
pub mod requests;
pub mod responses;
pub mod strings;

verus! {

/// Classifies an HTTP status code as a client error (4xx).
pub open spec fn is_client_error_status(status: u16) -> bool {
    400 <= status <= 499
}

/// Classifies an HTTP status code as a server error (5xx).
pub open spec fn is_server_error_status(status: u16) -> bool {
    500 <= status <= 599
}

/// True exactly for the statuses that signal success of a request (2xx).
pub open spec fn is_success_status(status: u16) -> bool {
    200 <= status <= 299
}

} // verus!

