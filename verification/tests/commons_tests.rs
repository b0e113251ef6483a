use rabbitmq_http_client::commons::BindingDestinationType;
use rabbitmq_http_client::commons::ExchangeType;
use rabbitmq_http_client::commons::PolicyTarget;
use rabbitmq_http_client::commons::QueueType;
use rabbitmq_http_client::commons::UserLimitTarget;
use rabbitmq_http_client::commons::VirtualHostLimitTarget;

#[test]
fn test_exchange_type_wire_strings() {
    assert_eq!(ExchangeType::Fanout.wire_string(), "fanout");
    assert_eq!(ExchangeType::Topic.wire_string(), "topic");
    assert_eq!(ExchangeType::Direct.wire_string(), "direct");
    assert_eq!(ExchangeType::Headers.wire_string(), "headers");
    assert_eq!(ExchangeType::ConsistentHashing.wire_string(), "x-consistent-hash");
    assert_eq!(ExchangeType::ModulusHash.wire_string(), "x-modulus-hash");
    assert_eq!(ExchangeType::Random.wire_string(), "x-random");
    assert_eq!(ExchangeType::JmsTopic.wire_string(), "x-jms-topic");
    assert_eq!(ExchangeType::RecentHistory.wire_string(), "x-recent-history");
    assert_eq!(ExchangeType::Plugin("x-custom".to_owned()).wire_string(), "x-custom");
}

#[test]
fn test_exchange_type_from_wire_round_trip() {
    let wires = vec![
        "fanout",
        "topic",
        "direct",
        "headers",
        "x-consistent-hash",
        "x-modulus-hash",
        "x-random",
        "x-jms-topic",
        "x-recent-history",
        "x-some-plugin",
    ];
    for w in wires {
        assert_eq!(ExchangeType::from_wire(w).wire_string(), w);
    }
    assert_eq!(ExchangeType::from_wire("fanout"), ExchangeType::Fanout);
    assert_eq!(
        ExchangeType::from_wire("x-delayed-message"),
        ExchangeType::Plugin("x-delayed-message".to_owned())
    );
}

#[test]
fn test_queue_type_conversions() {
    assert_eq!(QueueType::Classic.wire_string(), "classic");
    assert_eq!(QueueType::Quorum.wire_string(), "quorum");
    assert_eq!(QueueType::Stream.wire_string(), "stream");
    assert_eq!(QueueType::from_wire("quorum"), QueueType::Quorum);
    assert_eq!(QueueType::from_wire("stream"), QueueType::Stream);
    assert_eq!(QueueType::from_wire("classic"), QueueType::Classic);
    assert_eq!(QueueType::from_wire("anything-else"), QueueType::Classic);
}

#[test]
fn test_path_appreviation() {
    assert_eq!(BindingDestinationType::Queue.path_appreviation(), "q");
    assert_eq!(BindingDestinationType::Exchange.path_appreviation(), "e");
}

#[test]
fn test_binding_destination_type_conversions() {
    assert_eq!(BindingDestinationType::Queue.wire_string(), "queue");
    assert_eq!(BindingDestinationType::Exchange.wire_string(), "exchange");
    assert_eq!(BindingDestinationType::from_wire("exchange"), BindingDestinationType::Exchange);
    assert_eq!(BindingDestinationType::from_wire("queue"), BindingDestinationType::Queue);
    assert_eq!(BindingDestinationType::from_wire("other"), BindingDestinationType::Queue);
}

#[test]
fn test_policy_target_conversions() {
    assert_eq!(PolicyTarget::Queues.wire_string(), "queues");
    assert_eq!(PolicyTarget::ClassicQueues.wire_string(), "classic_queues");
    assert_eq!(PolicyTarget::QuorumQueues.wire_string(), "quorum_queues");
    assert_eq!(PolicyTarget::Streams.wire_string(), "streams");
    assert_eq!(PolicyTarget::Exchanges.wire_string(), "exchanges");
    assert_eq!(PolicyTarget::All.wire_string(), "all");
    assert_eq!(PolicyTarget::from_wire("exchanges"), PolicyTarget::Exchanges);
    assert_eq!(PolicyTarget::from_wire("unknown"), PolicyTarget::Queues);
}

#[test]
fn test_limit_target_conversions() {
    assert_eq!(VirtualHostLimitTarget::MaxConnections.wire_string(), "max-connections");
    assert_eq!(VirtualHostLimitTarget::MaxQueues.wire_string(), "max-queues");
    assert_eq!(
        VirtualHostLimitTarget::from_wire("max-queues"),
        VirtualHostLimitTarget::MaxQueues
    );
    assert_eq!(UserLimitTarget::MaxConnections.wire_string(), "max-connections");
    assert_eq!(UserLimitTarget::MaxChannels.wire_string(), "max-channels");
    assert_eq!(UserLimitTarget::from_wire("max-channels"), UserLimitTarget::MaxChannels);
}
