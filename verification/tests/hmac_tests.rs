use ledgerkit::hmac_verifier::{
    base64_decode, HmacVerifier, HmacVerifierConfig, HmacVerifierError, SignatureEncoding,
};
use ledgerkit::webhook::{HeaderMap, RawWebhook, VerificationResult};
use ledgerkit::webhook_verifier::WebhookVerifier;

#[test]
fn test_hmac_sign_and_verify() {
    let secret = b"test_secret_key";
    let verifier = HmacVerifier::hex(secret, "x-webhook-signature");

    let body = r#"{"event":"payment.captured"}"#;
    let signature = verifier.sign_hex(body.as_bytes());

    let mut headers = HeaderMap::new();
    headers.insert("x-webhook-signature".to_string(), signature);

    let webhook = RawWebhook::new(headers, body.to_string());
    let result = verifier.verify(&webhook).unwrap();
    assert!(result.is_valid());
}

#[test]
fn test_hmac_invalid_signature() {
    let secret = b"test_secret_key";
    let verifier = HmacVerifier::hex(secret, "x-webhook-signature");

    let mut headers = HeaderMap::new();
    headers.insert("x-webhook-signature".to_string(), "deadbeef".to_string());

    let webhook = RawWebhook::new(headers, "test body".to_string());
    let result = verifier.verify(&webhook).unwrap();
    assert!(result.is_rejected());
}

#[test]
fn test_hmac_missing_header() {
    let secret = b"test_secret_key";
    let verifier = HmacVerifier::hex(secret, "x-webhook-signature");

    let webhook = RawWebhook::new(HeaderMap::new(), "test body".to_string());
    let result = verifier.verify(&webhook);
    assert!(result.is_err());
}

#[test]
fn hmac_matches_rfc4231_vector() {
    let verifier = HmacVerifier::hex(b"Jefe", "sig");
    assert_eq!(
        verifier.sign_hex(b"what do ya want for nothing?"),
        "5bdcc146bf60754e6a042426089575c75a003f089d2739839dec58b964ec3843"
    );
    assert_eq!(verifier.compute_signature(b"what do ya want for nothing?").len(), 32);
}

#[test]
fn hmac_header_lookup_ignores_case_and_accepts_upper_hex() {
    let verifier = HmacVerifier::hex(b"k", "X-Webhook-Signature");
    let body = "payload";
    let signature = verifier.sign_hex(body.as_bytes()).to_uppercase();
    let mut headers = HeaderMap::new();
    headers.insert("x-WEBHOOK-signature".to_string(), signature);
    let webhook = RawWebhook::new(headers, body.to_string());
    assert_eq!(verifier.verify(&webhook).unwrap(), VerificationResult::Valid);
}

#[test]
fn hmac_mismatch_reason_and_errors() {
    let verifier = HmacVerifier::hex(b"k", "sig");
    let mut headers = HeaderMap::new();
    headers.insert("sig".to_string(), "00".to_string());
    let webhook = RawWebhook::new(headers, "body".to_string());
    assert_eq!(
        verifier.verify(&webhook).unwrap(),
        VerificationResult::Invalid { reason: "HMAC signature mismatch".to_string() }
    );

    let mut headers = HeaderMap::new();
    headers.insert("sig".to_string(), "abc".to_string());
    let webhook = RawWebhook::new(headers, "body".to_string());
    assert!(matches!(verifier.verify(&webhook), Err(HmacVerifierError::InvalidEncoding)));

    let webhook = RawWebhook::new(HeaderMap::new(), "body".to_string());
    match verifier.verify(&webhook) {
        Err(e) => assert_eq!(e.to_string(), "missing signature header: sig"),
        Ok(_) => panic!("expected a missing header"),
    }
}

#[test]
fn hmac_prefix_is_stripped() {
    let config = HmacVerifierConfig {
        secret: b"secret".to_vec(),
        signature_header: "x-hub-signature-256".to_string(),
        timestamp_header: None,
        encoding: SignatureEncoding::Hex,
        signature_prefix: Some("sha256=".to_string()),
    };
    let verifier = HmacVerifier::new(config);
    let body = "{}";
    let signature = format!("sha256={}", verifier.sign_hex(body.as_bytes()));
    let mut headers = HeaderMap::new();
    headers.insert("x-hub-signature-256".to_string(), signature);
    let webhook = RawWebhook::new(headers, body.to_string());
    assert!(verifier.verify(&webhook).unwrap().is_valid());

    // Without the prefix the bare hex still verifies.
    let mut headers = HeaderMap::new();
    headers.insert("x-hub-signature-256".to_string(), verifier.sign_hex(body.as_bytes()));
    let webhook = RawWebhook::new(headers, body.to_string());
    assert!(verifier.verify(&webhook).unwrap().is_valid());
}

fn base64_encode(bytes: &[u8]) -> String {
    const ALPHABET: &[u8; 64] = b"ABCDEFGHIJKLMNOPQRSTUVWXYZabcdefghijklmnopqrstuvwxyz0123456789+/";
    let mut out = String::new();
    for chunk in bytes.chunks(3) {
        let b = [chunk[0], *chunk.get(1).unwrap_or(&0), *chunk.get(2).unwrap_or(&0)];
        let n = ((b[0] as u32) << 16) | ((b[1] as u32) << 8) | b[2] as u32;
        for k in 0..4 {
            if k <= chunk.len() {
                out.push(ALPHABET[((n >> (18 - 6 * k)) & 63) as usize] as char);
            } else {
                out.push('=');
            }
        }
    }
    out
}

fn base64_verifier() -> HmacVerifier {
    HmacVerifier::new(HmacVerifierConfig {
        secret: b"secret".to_vec(),
        signature_header: "sig".to_string(),
        timestamp_header: None,
        encoding: SignatureEncoding::Base64,
        signature_prefix: None,
    })
}

#[test]
fn hmac_base64_signature_verifies() {
    let verifier = base64_verifier();
    let body = r#"{"event":"payment.captured"}"#;
    let signature = base64_encode(&verifier.compute_signature(body.as_bytes()));
    assert_eq!(signature.len(), 44);
    assert!(signature.ends_with('='));
    let mut headers = HeaderMap::new();
    headers.insert("sig".to_string(), signature);
    let webhook = RawWebhook::new(headers, body.to_string());
    assert_eq!(verifier.verify(&webhook).unwrap(), VerificationResult::Valid);
}

#[test]
fn hmac_base64_mismatch_and_bad_encoding() {
    let verifier = base64_verifier();
    let mut headers = HeaderMap::new();
    headers.insert("sig".to_string(), "AAAA".to_string());
    let webhook = RawWebhook::new(headers, "x".to_string());
    assert_eq!(
        verifier.verify(&webhook).unwrap(),
        VerificationResult::Invalid { reason: "HMAC signature mismatch".to_string() }
    );
    for bad in ["AAA", "A===", "AB==", "AAA*", "=AAA"] {
        let mut headers = HeaderMap::new();
        headers.insert("sig".to_string(), bad.to_string());
        let webhook = RawWebhook::new(headers, "x".to_string());
        assert!(matches!(verifier.verify(&webhook), Err(HmacVerifierError::InvalidEncoding)), "{}", bad);
    }
}

#[test]
fn base64_decoding_examples() {
    assert_eq!(base64_decode("").unwrap(), Vec::<u8>::new());
    assert_eq!(base64_decode("TWFu").unwrap(), b"Man".to_vec());
    assert_eq!(base64_decode("TWE=").unwrap(), b"Ma".to_vec());
    assert_eq!(base64_decode("TQ==").unwrap(), b"M".to_vec());
    assert_eq!(base64_decode("+/+/").unwrap(), vec![0xfb, 0xff, 0xbf]);
    assert!(base64_decode("TR==").is_none());
    assert!(base64_decode("TWF=").is_none());
    assert!(base64_decode("TW=u").is_none());
    let bytes: Vec<u8> = (0u8..=255).collect();
    assert_eq!(base64_decode(&base64_encode(&bytes)).unwrap(), bytes);
}

#[test]
fn hmac_signature_depends_on_body_and_key() {
    let a = HmacVerifier::hex(b"one", "sig");
    let b = HmacVerifier::hex(b"two", "sig");
    assert_ne!(a.sign_hex(b"body"), b.sign_hex(b"body"));
    assert_ne!(a.sign_hex(b"body"), a.sign_hex(b"other"));
    assert_eq!(a.sign_hex(b"body").len(), 64);
}
