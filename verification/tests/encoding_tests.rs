use rabbitmq_http_client::encoding::percent_decode;
use rabbitmq_http_client::encoding::percent_encode;

#[test]
fn test_encode_name_with_slash_and_space() {
    let encoded = percent_encode("foo /bar");
    assert_eq!(encoded, "foo%20%2Fbar");
}

#[test]
fn test_encode_alphanumeric_name_unchanged() {
    assert_eq!(percent_encode("queue1"), "queue1");
    assert_eq!(percent_encode("AZaz09"), "AZaz09");
}

#[test]
fn test_encode_default_vhost() {
    assert_eq!(percent_encode("/"), "%2F");
}

#[test]
fn test_encode_non_ascii_name() {
    assert_eq!(percent_encode("ü"), "%C3%BC");
}

#[test]
fn test_decode_inverts_encode() {
    let names: Vec<&str> = vec!["foo /bar", "/", "a.b-c_d", "x%y", "ü ö"];
    for name in names {
        let encoded = percent_encode(name);
        let decoded = percent_decode(encoded.as_bytes()).unwrap();
        assert_eq!(decoded, name.as_bytes());
    }
}

#[test]
fn test_decode_rejects_truncated_escape() {
    assert!(percent_decode(b"abc%2").is_none());
    assert!(percent_decode(b"%").is_none());
    assert!(percent_decode(b"%zz").is_none());
}

#[test]
fn test_decode_accepts_lowercase_hex() {
    assert_eq!(percent_decode(b"%2f").unwrap(), b"/");
    assert_eq!(percent_decode(b"%2F").unwrap(), b"/");
}
