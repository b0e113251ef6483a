use rabbitmq_http_client::commons::BindingDestinationType;
use rabbitmq_http_client::commons::UserLimitTarget;
use rabbitmq_http_client::commons::VirtualHostLimitTarget;
use rabbitmq_http_client::paths::BindindVertex;
use rabbitmq_http_client::paths::binding_deletion_path;
use rabbitmq_http_client::paths::bind_exchange_path;
use rabbitmq_http_client::paths::bind_queue_path;
use rabbitmq_http_client::paths::connection_path;
use rabbitmq_http_client::paths::exchange_bindings_path;
use rabbitmq_http_client::paths::exchange_path;
use rabbitmq_http_client::paths::permissions_path;
use rabbitmq_http_client::paths::policy_path;
use rabbitmq_http_client::paths::queue_bindings_path;
use rabbitmq_http_client::paths::queue_path;
use rabbitmq_http_client::paths::queue_purge_path;
use rabbitmq_http_client::paths::rooted_path;
use rabbitmq_http_client::paths::runtime_parameter_path;
use rabbitmq_http_client::paths::user_limit_path;
use rabbitmq_http_client::paths::user_path;
use rabbitmq_http_client::paths::vhost_limit_path;
use rabbitmq_http_client::paths::vhost_path;

#[test]
fn test_queue_path_encodes_both_segments() {
    assert_eq!(queue_path("/", "qq.1"), "queues/%2F/qq%2E1");
    assert_eq!(queue_path("vh one", "q/1"), "queues/vh%20one/q%2F1");
}

#[test]
fn test_vhost_and_user_paths() {
    assert_eq!(vhost_path("/"), "vhosts/%2F");
    assert_eq!(user_path("guest"), "users/guest");
    assert_eq!(connection_path("127.0.0.1:5672"), "connections/127%2E0%2E0%2E1%3A5672");
}

#[test]
fn test_exchange_and_binding_listing_paths() {
    assert_eq!(exchange_path("/", "amq.fanout"), "exchanges/%2F/amq%2Efanout");
    assert_eq!(queue_bindings_path("/", "q1"), "queues/%2F/q1/bindings");
    assert_eq!(
        exchange_bindings_path("/", "amq.topic", BindindVertex::Source),
        "exchanges/%2F/amq%2Etopic/bindings/source"
    );
    assert_eq!(
        exchange_bindings_path("/", "amq.topic", BindindVertex::Destination),
        "exchanges/%2F/amq%2Etopic/bindings/destination"
    );
}

#[test]
fn test_bind_paths() {
    assert_eq!(bind_queue_path("/", "amq.fanout", "q1"), "bindings/%2F/e/amq%2Efanout/q/q1");
    assert_eq!(bind_exchange_path("/", "src", "dst"), "bindings/%2F/e/src/e/dst");
}

#[test]
fn test_binding_deletion_path_uses_type_abbreviation() {
    assert_eq!(
        binding_deletion_path("/", "amq.fanout", BindingDestinationType::Queue, "q1", "~"),
        "bindings/%2F/e/amq%2Efanout/q/q1/%7E"
    );
    assert_eq!(
        binding_deletion_path("/", "src", BindingDestinationType::Exchange, "dst", "key"),
        "bindings/%2F/e/src/e/dst/key"
    );
}

#[test]
fn test_limit_and_policy_paths() {
    assert_eq!(
        user_limit_path("guest", UserLimitTarget::MaxChannels),
        "user-limits/guest/max-channels"
    );
    assert_eq!(
        vhost_limit_path("/", VirtualHostLimitTarget::MaxConnections),
        "vhost-limits/%2F/max-connections"
    );
    assert_eq!(policy_path("/", "ttl policy"), "policies/%2F/ttl%20policy");
    assert_eq!(permissions_path("/", "guest"), "permissions/%2F/guest");
}

#[test]
fn test_runtime_parameter_and_purge_paths() {
    assert_eq!(
        runtime_parameter_path("federation-upstream", "/", "up-1"),
        "parameters/federation%2Dupstream/%2F/up%2D1"
    );
    assert_eq!(queue_purge_path("/", "q1"), "queues/%2F/q1/contents");
}

#[test]
fn test_rooted_path_joins_endpoint_and_path() {
    assert_eq!(
        rooted_path("http://localhost:15672/api", "queues/%2F/q1"),
        "http://localhost:15672/api/queues/%2F/q1"
    );
}

#[test]
fn test_paths_of_distinct_names_differ() {
    // A name containing a slash cannot collide with two plain segments.
    assert_ne!(queue_path("a/b", "c"), queue_path("a", "b/c"));
    assert_ne!(queue_path("a", "b"), queue_path("a", "c"));
}
