use ed25519_signer::{
    generate_operation, parse_operation, public_key_resource_name, sign_operation,
    verify_operation, Operation, SigError,
};

#[test]
fn parse_operation_names() {
    assert_eq!(
        parse_operation(&String::from("generate")),
        Ok(Operation::Generate)
    );
    assert_eq!(parse_operation(&String::from("sign")), Ok(Operation::Sign));
    assert_eq!(
        parse_operation(&String::from("verify")),
        Ok(Operation::Verify)
    );
}

#[test]
fn unknown_operation_is_unsupported() {
    assert_eq!(
        parse_operation(&String::from("frobnicate")),
        Err(SigError::UnsupportedOperation)
    );
    assert_eq!(
        parse_operation(&String::from("")),
        Err(SigError::UnsupportedOperation)
    );
}

#[test]
fn public_resource_name_gets_marker() {
    let name = public_key_resource_name(&b"key".to_vec());
    assert_eq!(name, b"key.pub".to_vec());
}

#[test]
fn generate_sign_verify_scenario() {
    let (secret_bytes, public_bytes) = generate_operation().expect("random source unavailable");
    let message = b"hello world".to_vec();
    let signature_bytes = sign_operation(
        Some(secret_bytes),
        Some(public_bytes.clone()),
        Some(message.clone()),
    )
    .expect("signing failed");
    let outcome = verify_operation(
        Some(message),
        Some(public_bytes),
        Some(signature_bytes),
    );
    assert_eq!(outcome, Ok(true));
}

#[test]
fn changed_message_scenario() {
    let (secret_bytes, public_bytes) = generate_operation().expect("random source unavailable");
    let signature_bytes = sign_operation(
        Some(secret_bytes),
        Some(public_bytes.clone()),
        Some(b"hello world".to_vec()),
    )
    .expect("signing failed");
    let outcome = verify_operation(
        Some(b"hello worlds".to_vec()),
        Some(public_bytes),
        Some(signature_bytes),
    );
    assert_eq!(outcome, Ok(false));
}

#[test]
fn missing_public_key_scenario() {
    let outcome = verify_operation(
        Some(b"hello world".to_vec()),
        None,
        Some(vec![0u8; 64]),
    );
    assert_eq!(outcome, Err(SigError::ResourceNotFound));
}

#[test]
fn missing_message_is_reported_first() {
    let outcome = verify_operation(None, None, None);
    assert_eq!(outcome, Err(SigError::ResourceNotFound));
}

#[test]
fn malformed_stored_public_key_is_reported() {
    let outcome = verify_operation(
        Some(b"hello world".to_vec()),
        Some(vec![7u8; 31]),
        Some(vec![0u8; 64]),
    );
    assert_eq!(outcome, Err(SigError::MalformedEncoding));
}

#[test]
fn malformed_stored_signature_is_reported() {
    let (_, public_bytes) = generate_operation().expect("random source unavailable");
    let outcome = verify_operation(
        Some(b"hello world".to_vec()),
        Some(public_bytes),
        Some(vec![7u8; 63]),
    );
    assert_eq!(outcome, Err(SigError::MalformedEncoding));
}

#[test]
fn sign_with_missing_secret_key() {
    let outcome = sign_operation(None, Some(vec![0u8; 32]), Some(b"hi".to_vec()));
    assert_eq!(outcome, Err(SigError::ResourceNotFound));
}

#[test]
fn sign_with_missing_message() {
    let (secret_bytes, public_bytes) = generate_operation().expect("random source unavailable");
    let outcome = sign_operation(Some(secret_bytes), Some(public_bytes), None);
    assert_eq!(outcome, Err(SigError::ResourceNotFound));
}

#[test]
fn sign_with_malformed_secret_key() {
    let (_, public_bytes) = generate_operation().expect("random source unavailable");
    let outcome = sign_operation(
        Some(vec![7u8; 31]),
        Some(public_bytes),
        Some(b"hi".to_vec()),
    );
    assert_eq!(outcome, Err(SigError::MalformedEncoding));
}
