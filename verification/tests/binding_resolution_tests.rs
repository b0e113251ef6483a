use rabbitmq_http_client::bindings::plan_binding_deletion;
use rabbitmq_http_client::bindings::resolve_binding_deletion;
use rabbitmq_http_client::commons::BindingDestinationType;
use rabbitmq_http_client::errors::Error;
use rabbitmq_http_client::json::JsonMap;
use rabbitmq_http_client::json::JsonValue;
use rabbitmq_http_client::responses::BindingInfo;

fn record(source: &str, routing_key: &str, arguments: JsonMap, properties_key: &str) -> BindingInfo {
    BindingInfo {
        vhost: "/".to_owned(),
        source: source.to_owned(),
        destination: "q1".to_owned(),
        destination_type: BindingDestinationType::Queue,
        routing_key: routing_key.to_owned(),
        arguments,
        properties_key: properties_key.to_owned(),
    }
}

#[test]
fn test_unique_match_resolves_to_its_properties_key() {
    // The scenario of a durable classic queue "q1" in vhost "/", bound to
    // "amq.fanout" with no routing key and no arguments: the listing holds
    // that one binding, and deletion resolves to its properties key.
    let listing = vec![record("amq.fanout", "", JsonMap::new(), "~")];
    let r = resolve_binding_deletion(&listing, "amq.fanout", "", &JsonMap::new());
    assert_eq!(r.unwrap(), "~");

    // Once the binding is deleted, re-listing the bindings of "q1" finds
    // nothing, and the same descriptor resolves to NotFound.
    let after: Vec<BindingInfo> = vec![];
    let r2 = resolve_binding_deletion(&after, "amq.fanout", "", &JsonMap::new());
    assert!(matches!(r2, Err(Error::NotFound)));
}

#[test]
fn test_descriptor_never_bound_resolves_to_not_found() {
    let listing = vec![record("amq.topic", "rk", JsonMap::new(), "rk")];
    let r = resolve_binding_deletion(&listing, "amq.direct", "rk", &JsonMap::new());
    assert!(matches!(r, Err(Error::NotFound)));
    let empty: Vec<BindingInfo> = vec![];
    let r2 = resolve_binding_deletion(&empty, "amq.direct", "rk", &JsonMap::new());
    assert!(matches!(r2, Err(Error::NotFound)));
}

#[test]
fn test_two_matches_refuse_to_guess() {
    // Two bindings distinguishable only by their properties keys.
    let listing = vec![
        record("amq.fanout", "", JsonMap::new(), "key-one"),
        record("amq.fanout", "", JsonMap::new(), "key-two"),
    ];
    let r = resolve_binding_deletion(&listing, "amq.fanout", "", &JsonMap::new());
    assert!(matches!(r, Err(Error::ManyMatchingBindings)));
}

#[test]
fn test_filter_is_exact_on_all_three_fields() {
    let mut args = JsonMap::new();
    args.insert("x-match", JsonValue::of_str("all"));
    let listing = vec![
        record("ex", "rk", args.clone(), "k1"),
        record("ex", "other", args.clone(), "k2"),
        record("other-ex", "rk", args.clone(), "k3"),
        record("ex", "rk", JsonMap::new(), "k4"),
    ];
    let r = resolve_binding_deletion(&listing, "ex", "rk", &args);
    assert_eq!(r.unwrap(), "k1");
}

#[test]
fn test_argument_matching_ignores_insertion_order() {
    let mut listed = JsonMap::new();
    listed.insert("x-match", JsonValue::of_str("all"));
    listed.insert("header-a", JsonValue::of_str("v"));
    let listing = vec![record("ex", "", listed, "k1")];

    let mut requested = JsonMap::new();
    requested.insert("header-a", JsonValue::of_str("v"));
    requested.insert("x-match", JsonValue::of_str("all"));
    let r = resolve_binding_deletion(&listing, "ex", "", &requested);
    assert_eq!(r.unwrap(), "k1");
}

#[test]
fn test_plan_builds_the_deletion_path_for_the_unique_match() {
    let listing = vec![record("amq.fanout", "", JsonMap::new(), "~")];
    let r = plan_binding_deletion(
        &listing,
        "/",
        "amq.fanout",
        "q1",
        BindingDestinationType::Queue,
        "",
        &JsonMap::new(),
    );
    assert_eq!(r.unwrap(), "bindings/%2F/e/amq%2Efanout/q/q1/%7E");
}

#[test]
fn test_plan_performs_no_deletion_without_a_unique_match() {
    let empty: Vec<BindingInfo> = vec![];
    let none = plan_binding_deletion(
        &empty,
        "/",
        "amq.fanout",
        "q1",
        BindingDestinationType::Queue,
        "",
        &JsonMap::new(),
    );
    assert!(matches!(none, Err(Error::NotFound)));

    let listing = vec![
        record("amq.fanout", "", JsonMap::new(), "a"),
        record("amq.fanout", "", JsonMap::new(), "b"),
    ];
    let many = plan_binding_deletion(
        &listing,
        "/",
        "amq.fanout",
        "q1",
        BindingDestinationType::Queue,
        "",
        &JsonMap::new(),
    );
    assert!(matches!(many, Err(Error::ManyMatchingBindings)));
}
