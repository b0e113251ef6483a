use rabbitmq_http_client::commons::ExchangeType;
use rabbitmq_http_client::commons::PolicyTarget;
use rabbitmq_http_client::commons::QueueType;
use rabbitmq_http_client::json::JsonMap;
use rabbitmq_http_client::json::JsonValue;
use rabbitmq_http_client::requests::EnforcedLimitParams;
use rabbitmq_http_client::requests::ExchangeParams;
use rabbitmq_http_client::requests::Permissions;
use rabbitmq_http_client::requests::PolicyParams;
use rabbitmq_http_client::requests::QueueParams;
use rabbitmq_http_client::requests::RuntimeParameterDefinition;
use rabbitmq_http_client::requests::UserParams;
use rabbitmq_http_client::requests::VirtualHostParams;
use rabbitmq_http_client::requests::binding_body;
use rabbitmq_http_client::requests::cluster_name_body;
use rabbitmq_http_client::requests::is_valid_header_value;
use rabbitmq_http_client::requests::validate_header_value;
use rabbitmq_http_client::errors::Error;
use rabbitmq_http_client::requests::limit_request_body;

fn expect_str(m: &JsonMap, key: &str, value: &str) {
    match m.get(key) {
        Some(JsonValue::Str(s)) => assert_eq!(s, value),
        other => panic!("key {} held {:?}", key, other),
    }
}

fn expect_bool(m: &JsonMap, key: &str, value: bool) {
    match m.get(key) {
        Some(JsonValue::Bool(b)) => assert_eq!(*b, value),
        other => panic!("key {} held {:?}", key, other),
    }
}

fn expect_i64(m: &JsonMap, key: &str, value: i64) {
    match m.get(key) {
        Some(JsonValue::Int(i)) => assert_eq!(*i, value),
        other => panic!("key {} held {:?}", key, other),
    }
}

#[test]
fn test_vhost_body_omits_absent_fields() {
    let params = VirtualHostParams::named("vh-1");
    let body = params.request_body();
    assert_eq!(body.len(), 2);
    expect_str(&body, "name", "vh-1");
    expect_bool(&body, "tracing", false);
    assert!(!body.contains_key("description"));
    assert!(!body.contains_key("tags"));
    assert!(!body.contains_key("default_queue_type"));
}

#[test]
fn test_vhost_body_includes_present_fields() {
    let params = VirtualHostParams {
        name: "vh-2",
        description: Some("a test vhost"),
        tags: Some(vec!["dev", "temp"]),
        default_queue_type: Some(QueueType::Quorum),
        tracing: true,
    };
    let body = params.request_body();
    assert_eq!(body.len(), 5);
    expect_str(&body, "description", "a test vhost");
    expect_str(&body, "default_queue_type", "quorum");
    expect_bool(&body, "tracing", true);
    match body.get("tags") {
        Some(JsonValue::Arr(items)) => {
            assert_eq!(items.len(), 2);
            assert!(items[0].equals(&JsonValue::of_str("dev")));
            assert!(items[1].equals(&JsonValue::of_str("temp")));
        }
        other => panic!("tags held {:?}", other),
    }
}

#[test]
fn test_user_body() {
    let params = UserParams { name: "u1", password_hash: "abcdef", tags: "administrator" };
    let body = params.request_body();
    assert_eq!(body.len(), 3);
    expect_str(&body, "name", "u1");
    expect_str(&body, "password_hash", "abcdef");
    expect_str(&body, "tags", "administrator");
}

#[test]
fn test_quorum_queue_args_carry_queue_type() {
    let params = QueueParams::new_quorum_queue("qq.1", None);
    assert!(params.durable);
    assert!(!params.auto_delete);
    assert!(!params.exclusive);
    let args = params.arguments.as_ref().unwrap();
    assert_eq!(args.len(), 1);
    expect_str(args, "x-queue-type", "quorum");
}

#[test]
fn test_combined_args_keep_caller_arguments() {
    let mut optional = JsonMap::new();
    optional.insert("x-message-ttl", JsonValue::of_i64(5000));
    let params = QueueParams::new_stream("st.1", Some(optional));
    let args = params.arguments.as_ref().unwrap();
    assert_eq!(args.len(), 2);
    expect_str(args, "x-queue-type", "stream");
    expect_i64(args, "x-message-ttl", 5000);
}

#[test]
fn test_combined_args_let_caller_override_queue_type() {
    let mut optional = JsonMap::new();
    optional.insert("x-queue-type", JsonValue::of_str("classic"));
    let args = QueueParams::combined_args(Some(optional), &QueueType::Quorum).unwrap();
    assert_eq!(args.len(), 1);
    expect_str(&args, "x-queue-type", "classic");
}

#[test]
fn test_queue_body_shape() {
    let params = QueueParams::new("q1", QueueType::Classic, true, false, None);
    let body = params.request_body();
    expect_str(&body, "name", "q1");
    expect_bool(&body, "durable", true);
    expect_bool(&body, "auto_delete", false);
    expect_bool(&body, "exclusive", false);
    assert!(body.contains_key("arguments"));
}

#[test]
fn test_exchange_body_uses_wire_type_string() {
    let params = ExchangeParams::durable_fanout("fx", None);
    let body = params.request_body();
    assert_eq!(body.len(), 4);
    expect_str(&body, "name", "fx");
    expect_str(&body, "type", "fanout");
    expect_bool(&body, "durable", true);
    expect_bool(&body, "auto_delete", false);
    assert!(!body.contains_key("arguments"));

    let plugin = ExchangeParams::durable("px", ExchangeType::Plugin("x-custom".to_owned()), None);
    let body2 = plugin.request_body();
    expect_str(&body2, "type", "x-custom");
}

#[test]
fn test_policy_body() {
    let mut definition = JsonMap::new();
    definition.insert("message-ttl", JsonValue::of_i64(60000));
    let params = PolicyParams {
        vhost: "/",
        name: "ttl",
        pattern: "^ttl\\.",
        apply_to: PolicyTarget::QuorumQueues,
        priority: 3,
        definition: Some(definition),
    };
    let body = params.request_body();
    assert_eq!(body.len(), 6);
    expect_str(&body, "vhost", "/");
    expect_str(&body, "name", "ttl");
    expect_str(&body, "pattern", "^ttl\\.");
    expect_str(&body, "apply-to", "quorum_queues");
    expect_i64(&body, "priority", 3);
    match body.get("definition") {
        Some(JsonValue::Obj(d)) => expect_i64(d, "message-ttl", 60000),
        other => panic!("definition held {:?}", other),
    }
}

#[test]
fn test_policy_body_omits_absent_definition() {
    let params = PolicyParams {
        vhost: "/",
        name: "p",
        pattern: ".*",
        apply_to: PolicyTarget::All,
        priority: 0,
        definition: None,
    };
    let body = params.request_body();
    assert_eq!(body.len(), 5);
    assert!(!body.contains_key("definition"));
}

#[test]
fn test_permissions_body() {
    let params =
        Permissions { user: "u", vhost: "/", configure: ".*", read: "^rk", write: "" };
    let body = params.request_body();
    assert_eq!(body.len(), 5);
    expect_str(&body, "user", "u");
    expect_str(&body, "vhost", "/");
    expect_str(&body, "configure", ".*");
    expect_str(&body, "read", "^rk");
    expect_str(&body, "write", "");
}

#[test]
fn test_runtime_parameter_body() {
    let mut value = JsonMap::new();
    value.insert("uri", JsonValue::of_str("amqp://target"));
    let def = RuntimeParameterDefinition {
        name: "up-1".to_owned(),
        vhost: "/".to_owned(),
        component: "federation-upstream".to_owned(),
        value,
    };
    let body = def.request_body();
    assert_eq!(body.len(), 4);
    expect_str(&body, "name", "up-1");
    expect_str(&body, "vhost", "/");
    expect_str(&body, "component", "federation-upstream");
    match body.get("value") {
        Some(JsonValue::Obj(v)) => expect_str(v, "uri", "amqp://target"),
        other => panic!("value held {:?}", other),
    }
}

#[test]
fn test_limit_body() {
    let body = limit_request_body(100);
    assert_eq!(body.len(), 1);
    expect_i64(&body, "value", 100);
    let unlimited = limit_request_body(-1);
    expect_i64(&unlimited, "value", -1);
    let params = EnforcedLimitParams::new("max-connections", 100);
    assert_eq!(params.kind, "max-connections");
    assert_eq!(params.value, 100);
}

#[test]
fn test_binding_body_omits_absent_fields() {
    let empty = binding_body(None, None);
    assert_eq!(empty.len(), 0);

    let mut args = JsonMap::new();
    args.insert("x-match", JsonValue::of_str("all"));
    let full = binding_body(Some("rk.#"), Some(args));
    assert_eq!(full.len(), 2);
    expect_str(&full, "routing_key", "rk.#");
    match full.get("arguments") {
        Some(JsonValue::Obj(a)) => expect_str(a, "x-match", "all"),
        other => panic!("arguments held {:?}", other),
    }
}

#[test]
fn test_cluster_name_body() {
    let body = cluster_name_body("rabbit@new");
    assert_eq!(body.len(), 1);
    expect_str(&body, "name", "rabbit@new");
}

#[test]
fn test_invalid_header_value_is_rejected_before_any_call() {
    assert!(validate_header_value("all good").is_ok());
    assert!(matches!(validate_header_value("bad\nvalue"), Err(Error::InvalidInput)));
}

#[test]
fn test_header_value_validation() {
    assert!(is_valid_header_value("scheduled maintenance"));
    assert!(is_valid_header_value("tabs\tare fine"));
    assert!(!is_valid_header_value("no\nnewlines"));
    assert!(!is_valid_header_value("no\rreturns"));
    assert!(!is_valid_header_value("päivitys"));
}
