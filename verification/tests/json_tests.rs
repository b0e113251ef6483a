use rabbitmq_http_client::json::JsonMap;
use rabbitmq_http_client::json::JsonValue;

#[test]
fn test_map_insert_and_get() {
    let mut m = JsonMap::new();
    assert_eq!(m.len(), 0);
    m.insert("x-message-ttl", JsonValue::of_i64(10000));
    m.insert("x-queue-type", JsonValue::of_str("quorum"));
    assert_eq!(m.len(), 2);
    assert!(m.contains_key("x-message-ttl"));
    assert!(!m.contains_key("x-expires"));
    match m.get("x-queue-type") {
        Some(JsonValue::Str(s)) => assert_eq!(s, "quorum"),
        other => panic!("unexpected value: {:?}", other),
    }
}

#[test]
fn test_map_insert_replaces_value_of_existing_key() {
    let mut m = JsonMap::new();
    m.insert("x-max-length", JsonValue::of_i64(100));
    m.insert("x-max-length", JsonValue::of_i64(200));
    assert_eq!(m.len(), 1);
    match m.get("x-max-length") {
        Some(JsonValue::Int(i)) => assert_eq!(*i, 200),
        other => panic!("unexpected value: {:?}", other),
    }
}

#[test]
fn test_map_equality_is_order_independent() {
    let mut a = JsonMap::new();
    a.insert("x-message-ttl", JsonValue::of_i64(10000));
    a.insert("x-dead-letter-exchange", JsonValue::of_str("dlx"));
    a.insert("x-max-priority", JsonValue::of_i64(9));

    let mut b = JsonMap::new();
    b.insert("x-max-priority", JsonValue::of_i64(9));
    b.insert("x-message-ttl", JsonValue::of_i64(10000));
    b.insert("x-dead-letter-exchange", JsonValue::of_str("dlx"));

    assert!(a.equals(&b));
    assert!(b.equals(&a));
}

#[test]
fn test_map_equality_sees_differing_values() {
    let mut a = JsonMap::new();
    a.insert("x-message-ttl", JsonValue::of_i64(10000));
    let mut b = JsonMap::new();
    b.insert("x-message-ttl", JsonValue::of_i64(20000));
    assert!(!a.equals(&b));

    let mut c = JsonMap::new();
    c.insert("x-message-ttl", JsonValue::of_i64(10000));
    c.insert("x-expires", JsonValue::of_i64(1));
    assert!(!a.equals(&c));
    assert!(!c.equals(&a));
}

#[test]
fn test_nested_object_equality_is_order_independent() {
    let mut inner1 = JsonMap::new();
    inner1.insert("upstream", JsonValue::of_str("origin"));
    inner1.insert("ack-mode", JsonValue::of_str("on-confirm"));
    let mut inner2 = JsonMap::new();
    inner2.insert("ack-mode", JsonValue::of_str("on-confirm"));
    inner2.insert("upstream", JsonValue::of_str("origin"));

    let mut a = JsonMap::new();
    a.insert("value", JsonValue::of_obj(inner1));
    let mut b = JsonMap::new();
    b.insert("value", JsonValue::of_obj(inner2));
    assert!(a.equals(&b));
}

#[test]
fn test_array_values_compare_in_order() {
    let a = JsonValue::of_arr(vec![JsonValue::of_i64(1), JsonValue::of_i64(2)]);
    let b = JsonValue::of_arr(vec![JsonValue::of_i64(1), JsonValue::of_i64(2)]);
    let c = JsonValue::of_arr(vec![JsonValue::of_i64(2), JsonValue::of_i64(1)]);
    assert!(a.equals(&b));
    assert!(!a.equals(&c));
}

#[test]
fn test_scalar_values() {
    assert!(JsonValue::null().equals(&JsonValue::null()));
    assert!(JsonValue::of_bool(true).equals(&JsonValue::of_bool(true)));
    assert!(!JsonValue::of_bool(true).equals(&JsonValue::of_bool(false)));
    assert!(!JsonValue::null().equals(&JsonValue::of_bool(false)));
    assert!(JsonValue::of_string("a".to_owned()).equals(&JsonValue::of_str("a")));
}

#[test]
fn test_clone_is_deep_and_equal() {
    let mut inner = JsonMap::new();
    inner.insert("k", JsonValue::of_str("v"));
    let mut m = JsonMap::new();
    m.insert("obj", JsonValue::of_obj(inner));
    m.insert("arr", JsonValue::of_arr(vec![JsonValue::of_i64(7)]));
    let c = m.clone();
    assert!(m.equals(&c));
}

#[test]
fn test_entry_at_walks_all_entries() {
    let mut m = JsonMap::new();
    m.insert("a", JsonValue::of_i64(1));
    m.insert("b", JsonValue::of_i64(2));
    let mut keys: Vec<String> = Vec::new();
    for i in 0..m.len() {
        let (k, _) = m.entry_at(i);
        keys.push(k.clone());
    }
    keys.sort();
    assert_eq!(keys, vec!["a".to_owned(), "b".to_owned()]);
}
