use kalshi_monitor::auth::signing_payload;
use kalshi_monitor::auth::KalshiAuth;

#[test]
fn test_signing_payload_plain_path() {
    let msg = signing_payload(1_234_567_890_123, "GET", "/portfolio/balance");
    assert_eq!(msg, "1234567890123GET/trade-api/v2/portfolio/balance");
}

#[test]
fn test_signing_payload_strips_query() {
    let msg = signing_payload(1, "GET", "/portfolio/orders?status=resting");
    assert_eq!(msg, "1GET/trade-api/v2/portfolio/orders");
}

#[test]
fn test_signing_payload_keeps_existing_prefix() {
    let msg = signing_payload(7, "POST", "/trade-api/v2/portfolio/orders");
    assert_eq!(msg, "7POST/trade-api/v2/portfolio/orders");
}

#[test]
fn test_sign_produces_decodable_signature() {
    let mut rng = rand::thread_rng();
    let key = rsa::RsaPrivateKey::new(&mut rng, 1024).expect("key generation");
    let auth = KalshiAuth::new("key-id".to_string(), key);

    let signature = auth.sign("1234GET/trade-api/v2/portfolio/balance").expect("signing");
    assert!(!signature.is_empty());
    assert_ne!(signature, "1234GET/trade-api/v2/portfolio/balance");
    // The signature is base64 of a 1024-bit RSA signature: 128 bytes.
    let decoded = base64::Engine::decode(&base64::engine::general_purpose::STANDARD, &signature)
        .expect("signature must be valid base64");
    assert_eq!(decoded.len(), 128);
}

#[test]
fn test_ws_auth_headers() {
    let mut rng = rand::thread_rng();
    let key = rsa::RsaPrivateKey::new(&mut rng, 1024).expect("key generation");
    let auth = KalshiAuth::new("key-id".to_string(), key);

    let (api_key, signature, ts) = auth.ws_auth_headers_at(9_876).expect("signing");
    assert_eq!(api_key, "key-id");
    assert!(!signature.is_empty());
    assert_eq!(ts, "9876");
}

#[test]
fn test_sign_request_at_timestamp_text() {
    let mut rng = rand::thread_rng();
    let key = rsa::RsaPrivateKey::new(&mut rng, 1024).expect("key generation");
    let auth = KalshiAuth::new("key-id".to_string(), key);
    let (signature, ts) =
        auth.sign_request_at("DELETE", "/portfolio/orders/abc", 555).expect("signing");
    assert!(!signature.is_empty());
    assert_eq!(ts, "555");
}

#[test]
fn test_sign_fails_on_undersized_key() {
    // A key too small for the SHA-256 digest and its salt cannot sign; the
    // library reports the failure instead of aborting.
    let mut rng = rand::thread_rng();
    let key = rsa::RsaPrivateKey::new(&mut rng, 512).expect("key generation");
    let auth = KalshiAuth::new("key-id".to_string(), key);
    assert!(auth.sign("1234GET/trade-api/v2/portfolio/balance").is_err());
    assert!(auth.sign_request_at("GET", "/portfolio/balance", 1).is_err());
    assert!(auth.ws_auth_headers_at(1).is_err());
}
