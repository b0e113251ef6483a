use rabbitmq_http_client::classifier::ClassificationPolicy;
use rabbitmq_http_client::classifier::classify_status;
use rabbitmq_http_client::classifier::decide_alarms_health_check;
use rabbitmq_http_client::classifier::decide_quorum_health_check;
use rabbitmq_http_client::errors::Error;
use rabbitmq_http_client::responses::ClusterAlarmCheckDetails;
use rabbitmq_http_client::responses::HealthCheckFailureDetails;
use rabbitmq_http_client::responses::QuorumCriticalityCheckDetails;
use rabbitmq_http_client::responses::QuorumEndangeredQueue;
use rabbitmq_http_client::responses::ResourceAlarm;

#[test]
fn test_strict_policy() {
    assert!(classify_status(200, ClassificationPolicy::Strict).is_ok());
    assert!(classify_status(204, ClassificationPolicy::Strict).is_ok());
    assert!(classify_status(301, ClassificationPolicy::Strict).is_ok());
    assert!(matches!(
        classify_status(404, ClassificationPolicy::Strict),
        Err(Error::ClientErrorResponse(404))
    ));
    assert!(matches!(
        classify_status(409, ClassificationPolicy::Strict),
        Err(Error::ClientErrorResponse(409))
    ));
    assert!(matches!(
        classify_status(500, ClassificationPolicy::Strict),
        Err(Error::ServerErrorResponse(500))
    ));
    assert!(matches!(
        classify_status(503, ClassificationPolicy::Strict),
        Err(Error::ServerErrorResponse(503))
    ));
}

#[test]
fn test_idempotent_delete_policy_absorbs_404() {
    // Deleting an already-absent resource answers 404 both times; both
    // calls classify as success.
    assert!(classify_status(404, ClassificationPolicy::IdempotentDelete).is_ok());
    assert!(classify_status(404, ClassificationPolicy::IdempotentDelete).is_ok());
    // Everything else stays an error.
    assert!(matches!(
        classify_status(403, ClassificationPolicy::IdempotentDelete),
        Err(Error::ClientErrorResponse(403))
    ));
    assert!(matches!(
        classify_status(500, ClassificationPolicy::IdempotentDelete),
        Err(Error::ServerErrorResponse(500))
    ));
}

#[test]
fn test_health_check_policy_passes_503_through() {
    assert!(classify_status(503, ClassificationPolicy::HealthCheck).is_ok());
    assert!(matches!(
        classify_status(500, ClassificationPolicy::HealthCheck),
        Err(Error::ServerErrorResponse(500))
    ));
    assert!(matches!(
        classify_status(404, ClassificationPolicy::HealthCheck),
        Err(Error::ClientErrorResponse(404))
    ));
}

#[test]
fn test_alarm_check_failure_surfaces_detail() {
    let details = ClusterAlarmCheckDetails {
        reason: "resource alarms are in effect".to_owned(),
        alarms: vec![ResourceAlarm { node: "rabbit@host1".to_owned(), resource: "memory".to_owned() }],
    };
    let r = decide_alarms_health_check(503, Some(details.clone()));
    match r {
        Err(Error::HealthCheckFailed(HealthCheckFailureDetails::AlarmCheck(d))) => {
            assert_eq!(d, details);
        }
        other => panic!("unexpected outcome: {:?}", other),
    }
}

#[test]
fn test_quorum_check_failure_surfaces_detail() {
    let details = QuorumCriticalityCheckDetails {
        reason: "quorum critical".to_owned(),
        queues: vec![QuorumEndangeredQueue {
            name: "qq.1".to_owned(),
            vhost: "/".to_owned(),
            queue_type: "quorum".to_owned(),
        }],
    };
    let r = decide_quorum_health_check(503, Some(details.clone()));
    match r {
        Err(Error::HealthCheckFailed(HealthCheckFailureDetails::NodeIsQuorumCritical(d))) => {
            assert_eq!(d, details);
        }
        other => panic!("unexpected outcome: {:?}", other),
    }
}

#[test]
fn test_health_check_503_is_never_a_generic_server_error() {
    let details = ClusterAlarmCheckDetails { reason: "r".to_owned(), alarms: vec![] };
    assert!(!matches!(
        decide_alarms_health_check(503, Some(details)),
        Err(Error::ServerErrorResponse(_))
    ));
    assert!(!matches!(
        decide_alarms_health_check(503, None),
        Err(Error::ServerErrorResponse(_))
    ));
}

#[test]
fn test_health_check_success_and_errors() {
    assert!(decide_alarms_health_check(200, None).is_ok());
    assert!(matches!(
        decide_alarms_health_check(401, None),
        Err(Error::ClientErrorResponse(401))
    ));
    assert!(matches!(
        decide_alarms_health_check(500, None),
        Err(Error::ServerErrorResponse(500))
    ));
    assert!(matches!(
        decide_quorum_health_check(503, None),
        Err(Error::DeserializationFailure)
    ));
}
