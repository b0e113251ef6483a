//! HTTP status classification under per-call policies.
//!
//! The broker overloads status codes with domain meaning: a 404 on a
//! delete may mean "already gone", and a 503 from a health endpoint means
//! "a check is failing", not "the server is down".  Classification is
//! therefore selected per call site, not globally.

use vstd::prelude::*;
use crate::errors::Error;
use crate::is_client_error_status;
use crate::is_server_error_status;
use crate::is_success_status;
use crate::responses::ClusterAlarmCheckDetails;
use crate::responses::HealthCheckFailureDetails;
use crate::responses::QuorumCriticalityCheckDetails;

verus! {

/// How a response status is classified.
#[derive(Debug, Clone, Copy, PartialEq, Eq, Structural)]
pub enum ClassificationPolicy {
    /// Any 4xx is a client error and any 5xx a server error.
    Strict,
    /// As `Strict`, except that a 404 counts as success, so that deleting
    /// something already absent is not a failure.
    IdempotentDelete,
    /// As `Strict`, except that a 503 is not a generic server error; the
    /// caller instead reads the body as health check failure detail.
    HealthCheck,
}

/// What classifying a status under a policy yields.
pub open spec fn classification(status: u16, policy: ClassificationPolicy) -> Result<(), Error> {
    if is_client_error_status(status) {
        if policy is IdempotentDelete && status == 404 {
            Ok(())
        } else {
            Err(Error::ClientErrorResponse(status))
        }
    } else if is_server_error_status(status) {
        if policy is HealthCheck && status == 503 {
            Ok(())
        } else {
            Err(Error::ServerErrorResponse(status))
        }
    } else {
        Ok(())
    }
}

/// Classifies a response status code under the chosen policy.
pub fn classify_status(status: u16, policy: ClassificationPolicy) -> (r: Result<(), Error>)
    ensures
        r == classification(status, policy),
{
    let is_client_error = 400 <= status && status <= 499;
    let is_server_error = 500 <= status && status <= 599;
    if is_client_error {
        if matches!(policy, ClassificationPolicy::IdempotentDelete) && status == 404 {
            Ok(())
        } else {
            Err(Error::ClientErrorResponse(status))
        }
    } else if is_server_error {
        if matches!(policy, ClassificationPolicy::HealthCheck) && status == 503 {
            Ok(())
        } else {
            Err(Error::ServerErrorResponse(status))
        }
    } else {
        Ok(())
    }
}

/// What a health check endpoint's response comes to, given its status and
/// the failure detail parsed from its body.  The body matters only when
/// the status is neither an outright error nor a success: a 503 with a
/// well-shaped body is a failed check with that detail, and a body of an
/// unexpected shape is a deserialization failure, distinct from the health
/// failure itself.
pub open spec fn health_check_outcome(status: u16, details: Option<HealthCheckFailureDetails>)
    -> Result<(), Error> {
    if is_client_error_status(status) {
        Err(Error::ClientErrorResponse(status))
    } else if is_server_error_status(status) && status != 503 {
        Err(Error::ServerErrorResponse(status))
    } else if is_success_status(status) {
        Ok(())
    } else {
        match details {
            Some(d) => Err(Error::HealthCheckFailed(d)),
            None => Err(Error::DeserializationFailure),
        }
    }
}

/// Decides the outcome of an alarm health check from the response status
/// and, for a non-success status that passed classification, the failure
/// detail parsed from the body (`None` when the body did not parse).
pub fn decide_alarms_health_check(status: u16, details: Option<ClusterAlarmCheckDetails>) -> (r:
    Result<(), Error>)
    ensures
        r == health_check_outcome(
            status,
            match details {
                Some(d) => Some(HealthCheckFailureDetails::AlarmCheck(d)),
                None => None,
            },
        ),
{
    decide_health_check(
        status,
        match details {
            Some(d) => Some(HealthCheckFailureDetails::AlarmCheck(d)),
            None => None,
        },
    )
}

/// Decides the outcome of a quorum criticality health check, as
/// `decide_alarms_health_check` does for alarm checks.
pub fn decide_quorum_health_check(status: u16, details: Option<QuorumCriticalityCheckDetails>)
    -> (r: Result<(), Error>)
    ensures
        r == health_check_outcome(
            status,
            match details {
                Some(d) => Some(HealthCheckFailureDetails::NodeIsQuorumCritical(d)),
                None => None,
            },
        ),
{
    decide_health_check(
        status,
        match details {
            Some(d) => Some(HealthCheckFailureDetails::NodeIsQuorumCritical(d)),
            None => None,
        },
    )
}

/// Decides the outcome of a health check from the response status and the
/// failure detail parsed from its body.
pub fn decide_health_check(status: u16, details: Option<HealthCheckFailureDetails>) -> (r: Result<
    (),
    Error,
>)
    ensures
        r == health_check_outcome(status, details),
{
    let is_client_error = 400 <= status && status <= 499;
    let is_server_error = 500 <= status && status <= 599;
    let is_success = 200 <= status && status <= 299;
    if is_client_error {
        Err(Error::ClientErrorResponse(status))
    } else if is_server_error && status != 503 {
        Err(Error::ServerErrorResponse(status))
    } else if is_success {
        Ok(())
    } else {
        match details {
            Some(d) => Err(Error::HealthCheckFailed(d)),
            None => Err(Error::DeserializationFailure),
        }
    }
}

/// Idempotent-delete policy: a delete answered 404 is a success, so
/// deleting an already-absent resource twice in a row succeeds both
/// times.
pub proof fn lemma_idempotent_delete_absorbs_absence(first: u16, second: u16)
    requires
        first == 404,
        second == 404,
    ensures
        classification(first, ClassificationPolicy::IdempotentDelete) == Ok::<(), Error>(()),
        classification(second, ClassificationPolicy::IdempotentDelete) == Ok::<(), Error>(()),
{
}

/// Health-check policy: a 503 from a health endpoint never surfaces as a
/// generic server error; with a well-shaped body it always surfaces as a
/// failed check carrying the detail the endpoint reported.
pub proof fn lemma_health_check_503_never_server_error(
    status: u16,
    details: Option<HealthCheckFailureDetails>,
    d: HealthCheckFailureDetails,
)
    ensures
        health_check_outcome(status, details) != Err::<(), Error>(Error::ServerErrorResponse(503)),
        classification(503, ClassificationPolicy::HealthCheck) == Ok::<(), Error>(()),
        health_check_outcome(503, Some(d)) == Err::<(), Error>(Error::HealthCheckFailed(d)),
{
}

} // verus!
