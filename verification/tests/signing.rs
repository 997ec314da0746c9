use prololo::signing::sign_payload;
use prololo::signing::validate_signature;
use prololo::signing::SignedGitHubPayload;

// A published HMAC-SHA-256 test vector.
const VECTOR_KEY: &str = "key";
const VECTOR_DATA: &str = "The quick brown fox jumps over the lazy dog";
const VECTOR_MAC: &str = "sha256=f7bc83f430538424b13298e6aa6fb143ef4d59a14946175997479dbc2d1a3cd8";

#[test]
fn sign_matches_known_vector() {
    assert_eq!(sign_payload(VECTOR_KEY, VECTOR_DATA), VECTOR_MAC);
}

#[test]
fn signature_round_trip_validates() {
    let secret = "test-webhook-secret";
    let body = r#"{"action":"opened","number":7}"#;
    let declared = sign_payload(secret, body);
    assert!(validate_signature(secret, declared.as_str(), body));
}

#[test]
fn uppercase_hex_also_validates() {
    let declared = "sha256=F7BC83F430538424B13298E6AA6FB143EF4D59A14946175997479DBC2D1A3CD8";
    assert!(validate_signature(VECTOR_KEY, declared, VECTOR_DATA));
}

#[test]
fn flipping_a_body_bit_invalidates() {
    let secret = "webhook secret";
    let body = "payload bytes";
    let declared = sign_payload(secret, body);
    // Flip the lowest bit of the first byte: 'p' becomes 'q'.
    let tampered = body.replacen('p', "q", 1);
    assert_ne!(body, tampered);
    assert!(validate_signature(secret, declared.as_str(), body));
    assert!(!validate_signature(secret, declared.as_str(), tampered.as_str()));
}

#[test]
fn flipping_a_mac_bit_invalidates() {
    let secret = "webhook secret";
    let body = "payload bytes";
    let declared = sign_payload(secret, body);
    // Flip one bit of the first hex digit of the tag.
    let mut chars: Vec<char> = declared.chars().collect();
    let i = "sha256=".len();
    chars[i] = match chars[i] {
        '0' => '1',
        _ => '0',
    };
    let tampered: String = chars.into_iter().collect();
    assert!(!validate_signature(secret, tampered.as_str(), body));
}

#[test]
fn missing_prefix_is_rejected() {
    let secret = "s";
    let body = "b";
    let declared = sign_payload(secret, body);
    let without_prefix = declared.trim_start_matches("sha256=");
    assert!(!validate_signature(secret, without_prefix, body));
}

#[test]
fn malformed_hex_is_rejected() {
    assert!(!validate_signature("s", "sha256=zz", "b"));
    assert!(!validate_signature("s", "sha256=abc", "b"));
}

#[test]
fn authenticate_wraps_valid_payloads_only() {
    let secret = "s3cr3t";
    let body = "{\"zen\":\"ok\"}";
    let declared = sign_payload(secret, body);
    let payload = SignedGitHubPayload::authenticate(secret, declared.as_str(), body.to_string());
    assert_eq!(payload.map(|p| p.0), Some(body.to_string()));
    assert!(SignedGitHubPayload::authenticate(secret, "sha256=00", body.to_string()).is_none());
}
