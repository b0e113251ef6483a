use rabbitmq_http_client::password_hashing::base64_encoded_salted_password_hash_sha256;
use rabbitmq_http_client::password_hashing::salt;
use rabbitmq_http_client::password_hashing::salted_password_hash_sha256;

#[test]
fn test_salt_is_four_alphanumeric_bytes() {
    for _ in 0..16 {
        let s = salt();
        assert_eq!(s.len(), 4);
        for b in s {
            assert!(b.is_ascii_alphanumeric());
        }
    }
}

#[test]
fn test_salted_hash_starts_with_salt_and_adds_digest() {
    let s = b"abcd";
    let hash = salted_password_hash_sha256(s, "s3krE7");
    assert_eq!(hash.len(), 36);
    assert_eq!(&hash[0..4], s);
}

#[test]
fn test_salted_hash_depends_on_salt_and_password() {
    let h1 = salted_password_hash_sha256(b"abcd", "pw");
    let h2 = salted_password_hash_sha256(b"abce", "pw");
    let h3 = salted_password_hash_sha256(b"abcd", "pw2");
    assert_ne!(h1, h2);
    assert_ne!(h1, h3);
}

#[test]
fn test_base64_encoded_hash_known_value() {
    let encoded = base64_encoded_salted_password_hash_sha256(b"abcd", "s3krE7");
    assert_eq!(encoded, "YWJjZOTSX7L9od6Gv6SOX/QQSAHLog5V3Qj3rGEPQsc7rG+t");
}
