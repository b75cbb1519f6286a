use nonce_verifier::canon::canonical_bytes;
use nonce_verifier::types::{Nonce, NoncePayload};

fn payload(id: &str, issued_at: i64, message: &str) -> NoncePayload {
    NoncePayload {
        nonce: Nonce { id: id.to_string(), issued_at },
        message: message.to_string(),
    }
}

#[test]
fn canonical_bytes_simple() {
    let p = payload("a", 5, "x");
    assert_eq!(
        canonical_bytes(&p),
        br#"{"nonce":{"id":"a","issued_at":5},"message":"x"}"#.to_vec()
    );
}

#[test]
fn canonical_bytes_realistic() {
    let p = payload("a734bb9e-9f7b-4f8d-b2b2-5a6e7f3f3021", 1713038460000, "Hello Verifier!");
    let expected = "{\"nonce\":{\"id\":\"a734bb9e-9f7b-4f8d-b2b2-5a6e7f3f3021\",\"issued_at\":1713038460000},\"message\":\"Hello Verifier!\"}";
    assert_eq!(canonical_bytes(&p), expected.as_bytes().to_vec());
}

#[test]
fn canonical_bytes_escapes_strings() {
    let p = payload("q\"w\\e", -42, "a\nb\tc\u{1}d\u{1f}e");
    let expected = "{\"nonce\":{\"id\":\"q\\\"w\\\\e\",\"issued_at\":-42},\"message\":\"a\\nb\\tc\\u0001d\\u001fe\"}";
    assert_eq!(canonical_bytes(&p), expected.as_bytes().to_vec());
}

#[test]
fn canonical_bytes_keeps_unicode_raw() {
    let p = payload("id-\u{e9}", 0, "caf\u{e9} \u{6f22}");
    let expected = "{\"nonce\":{\"id\":\"id-\u{e9}\",\"issued_at\":0},\"message\":\"caf\u{e9} \u{6f22}\"}";
    assert_eq!(canonical_bytes(&p), expected.as_bytes().to_vec());
}

#[test]
fn canonical_bytes_extreme_timestamps() {
    let p = payload("n", i64::MIN, "m");
    let expected = "{\"nonce\":{\"id\":\"n\",\"issued_at\":-9223372036854775808},\"message\":\"m\"}";
    assert_eq!(canonical_bytes(&p), expected.as_bytes().to_vec());
    let p2 = payload("n", i64::MAX, "m");
    let expected2 = "{\"nonce\":{\"id\":\"n\",\"issued_at\":9223372036854775807},\"message\":\"m\"}";
    assert_eq!(canonical_bytes(&p2), expected2.as_bytes().to_vec());
}

#[test]
fn string_escaping_matches_serde_json() {
    let message = "q\"w\\e\n\t\u{8}\u{c}\r\u{1}\u{1f}\u{e9}\u{6f22}";
    let p = payload("i", 0, message);
    let bytes = canonical_bytes(&p);
    let expected_literal =
        serde_json::to_vec(&serde_json::Value::String(message.to_string())).unwrap();
    // the message literal sits between `,"message":` and the closing brace
    assert_eq!(bytes.last(), Some(&b'}'));
    let start = bytes.len() - 1 - expected_literal.len();
    assert_eq!(&bytes[start..bytes.len() - 1], expected_literal.as_slice());
}
