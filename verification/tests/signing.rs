use ed25519_signer::{
    encode_public_key, encode_secret_key, generate, generate_operation, sign, sign_operation,
    verify_signature,
};

#[test]
fn test_keys_generation() {
    let (secret_bytes, public_bytes) = generate_operation().expect("random source unavailable");
    let is_public_produced = public_bytes.len() == 32;
    let is_secret_produced = secret_bytes.len() == 32;
    assert_eq!(is_public_produced, true);
    assert_eq!(is_secret_produced, true)
}

#[test]
fn test_message_signing() {
    let (secret_bytes, public_bytes) = generate_operation().expect("random source unavailable");
    let signature_bytes = sign_operation(
        Some(secret_bytes),
        Some(public_bytes),
        Some(b"hello world".to_vec()),
    )
    .expect("signing failed");
    let is_signature_produced = signature_bytes.len() == 64;
    assert_eq!(is_signature_produced, true)
}

#[test]
fn test_signature_verification() {
    let pair = generate().expect("random source unavailable");
    let message = b"hello world".to_vec();
    let signature = sign(&pair.secret, &pair.public, &message);
    let verification_result = verify_signature(&pair.public, &message, &signature);
    assert_eq!(verification_result, true);
}

#[test]
fn signature_over_empty_message_verifies() {
    let pair = generate().expect("random source unavailable");
    let message: Vec<u8> = Vec::new();
    let signature = sign(&pair.secret, &pair.public, &message);
    assert!(verify_signature(&pair.public, &message, &signature));
}

#[test]
fn modified_message_is_rejected() {
    let pair = generate().expect("random source unavailable");
    let message = b"hello world".to_vec();
    let signature = sign(&pair.secret, &pair.public, &message);
    let other = b"hello worlds".to_vec();
    assert_eq!(verify_signature(&pair.public, &other, &signature), false);
}

#[test]
fn foreign_key_is_rejected() {
    let pair1 = generate().expect("random source unavailable");
    let pair2 = generate().expect("random source unavailable");
    let message = b"hello world".to_vec();
    let signature = sign(&pair1.secret, &pair1.public, &message);
    assert_eq!(verify_signature(&pair2.public, &message, &signature), false);
}

#[test]
fn tampered_signature_is_rejected() {
    let pair = generate().expect("random source unavailable");
    let message = b"hello world".to_vec();
    let mut signature = sign(&pair.secret, &pair.public, &message);
    signature.bytes[0] ^= 0x01;
    assert_eq!(verify_signature(&pair.public, &message, &signature), false);
}

#[test]
fn generated_pairs_are_distinct() {
    let pair1 = generate().expect("random source unavailable");
    let pair2 = generate().expect("random source unavailable");
    assert_ne!(
        encode_secret_key(&pair1.secret),
        encode_secret_key(&pair2.secret)
    );
    assert_ne!(
        encode_public_key(&pair1.public),
        encode_public_key(&pair2.public)
    );
}

#[test]
fn public_key_differs_from_secret_key() {
    let pair = generate().expect("random source unavailable");
    assert_ne!(
        encode_public_key(&pair.public),
        encode_secret_key(&pair.secret)
    );
}
