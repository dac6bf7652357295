use kms_evm_signer::kms::{public_key_from_response, signature_from_response};
use kms_evm_signer::{
    assemble_signature, compute_digest, evm_sign_data_response, evm_signature_from_der,
    point_matches_key, recover_public_key, sign_typed_data_response, y_parity_from_v,
    AwsKmsError, PayloadType, SignerError,
};


/// The SubjectPublicKeyInfo DER document of a secp256k1 key: the fixed
/// header for id-ecPublicKey on secp256k1, then the uncompressed point.
fn spki_der(vk: &k256::ecdsa::VerifyingKey) -> Vec<u8> {
    let mut der = vec![
        0x30, 0x56, 0x30, 0x10, 0x06, 0x07, 0x2a, 0x86, 0x48, 0xce, 0x3d, 0x02, 0x01, 0x06, 0x05,
        0x2b, 0x81, 0x04, 0x00, 0x0a, 0x03, 0x42, 0x00,
    ];
    der.extend_from_slice(vk.to_encoded_point(false).as_bytes());
    der
}

fn known_key() -> k256::ecdsa::SigningKey {
    k256::ecdsa::SigningKey::from_slice(&[0x11u8; 32]).unwrap()
}

fn raw_key(key: &k256::ecdsa::SigningKey) -> [u8; 64] {
    let point = key.verifying_key().to_encoded_point(false);
    let mut raw = [0u8; 64];
    raw.copy_from_slice(&point.as_bytes()[1..]);
    raw
}

fn sign(key: &k256::ecdsa::SigningKey, digest: &[u8; 32]) -> ([u8; 64], u8) {
    let (sig, id) = key.sign_prehash_recoverable(digest).unwrap();
    let mut rs = [0u8; 64];
    rs.copy_from_slice(&sig.to_bytes());
    (rs, id.to_byte())
}

#[test]
fn transaction_digest_of_empty_payload() {
    let digest = compute_digest(&[], PayloadType::Transaction);
    assert_eq!(
        hex::encode(digest),
        "c5d2460186f7233c927e7db2dcc703c0e500b653ca82273b7bfad8045d85a470"
    );
}

#[test]
fn message_digest_uses_the_personal_prefix() {
    let payload = b"Hello World";
    let digest = compute_digest(payload, PayloadType::Message);
    let mut preimage = b"\x19Ethereum Signed Message:\n11".to_vec();
    preimage.extend_from_slice(payload);
    assert_eq!(digest, alloy::primitives::keccak256(&preimage).0);
    assert_eq!(digest, alloy::primitives::eip191_hash_message(payload).0);
}

#[test]
fn digest_is_deterministic_and_32_bytes() {
    for kind in [PayloadType::Transaction, PayloadType::Message] {
        let a = compute_digest(b"payload", kind);
        let b = compute_digest(b"payload", kind);
        assert_eq!(a, b);
        assert_eq!(a.len(), 32);
    }
}

#[test]
fn message_and_transaction_digests_differ() {
    for payload in [&b""[..], &b"abc"[..], &[0u8; 100][..]] {
        assert_ne!(
            compute_digest(payload, PayloadType::Message),
            compute_digest(payload, PayloadType::Transaction)
        );
    }
}

#[test]
fn recovery_finds_the_signing_parity() {
    let key = known_key();
    for payload in [&b"one"[..], &b"two"[..], &b"three"[..], &b"four"[..]] {
        let digest = compute_digest(payload, PayloadType::Transaction);
        let (rs, v) = sign(&key, &digest);
        assert_eq!(recover_public_key(&raw_key(&key), &rs, &digest).unwrap(), v);
    }
}

#[test]
fn recovery_fails_for_tampered_digest_or_other_key() {
    let key = known_key();
    let digest = compute_digest(b"payload", PayloadType::Message);
    let (rs, _) = sign(&key, &digest);
    let mut tampered = digest;
    tampered[0] ^= 1;
    assert!(matches!(
        recover_public_key(&raw_key(&key), &rs, &tampered),
        Err(AwsKmsError::RecoveryError(_))
    ));
    let other = k256::ecdsa::SigningKey::from_slice(&[0x22u8; 32]).unwrap();
    assert!(matches!(
        recover_public_key(&raw_key(&other), &rs, &digest),
        Err(AwsKmsError::RecoveryError(_))
    ));
}

#[test]
fn signature_from_der_is_65_bytes_with_parity() {
    let key = known_key();
    let digest = compute_digest(b"transfer", PayloadType::Transaction);
    let (sig, id) = key.sign_prehash_recoverable(&digest).unwrap();
    let der_sig = sig.to_der();
    let der_pk = spki_der(key.verifying_key());
    let out = evm_signature_from_der(&digest, der_sig.as_bytes(), &der_pk).unwrap();
    assert_eq!(out.len(), 65);
    assert_eq!(&out[..64], &sig.to_bytes()[..]);
    assert_eq!(out[64], id.to_byte());
}

#[test]
fn signature_from_der_errors() {
    let key = known_key();
    let digest = compute_digest(b"transfer", PayloadType::Transaction);
    let (sig, _) = key.sign_prehash_recoverable(&digest).unwrap();
    let der_sig = sig.to_der();
    let der_pk = spki_der(key.verifying_key());
    assert!(matches!(
        evm_signature_from_der(&digest, b"not der", &der_pk),
        Err(AwsKmsError::ParseError(_))
    ));
    assert!(matches!(
        evm_signature_from_der(&digest, der_sig.as_bytes(), b"not der"),
        Err(AwsKmsError::ParseError(_))
    ));
    let other = k256::ecdsa::SigningKey::from_slice(&[0x33u8; 32]).unwrap();
    let other_pk = spki_der(other.verifying_key());
    assert!(matches!(
        evm_signature_from_der(&digest, der_sig.as_bytes(), &other_pk),
        Err(AwsKmsError::RecoveryError(_))
    ));
}

#[test]
fn assemble_appends_parity() {
    let mut rs = [0u8; 64];
    rs[0] = 0xaa;
    rs[63] = 0xbb;
    let sig = assemble_signature(&rs, 1);
    assert_eq!(sig.len(), 65);
    assert_eq!(sig[0], 0xaa);
    assert_eq!(sig[63], 0xbb);
    assert_eq!(sig[64], 1);
}

#[test]
fn point_matching_compares_coordinates() {
    let key = [5u8; 64];
    let mut point = vec![4u8];
    point.extend_from_slice(&key);
    assert!(point_matches_key(&point, &key));
    point[10] = 6;
    assert!(!point_matches_key(&point, &key));
    point[10] = 5;
    point[0] = 3;
    assert!(!point_matches_key(&point, &key));
    assert!(!point_matches_key(&point[..64], &key));
}

#[test]
fn missing_blobs_are_typed_errors() {
    assert!(matches!(public_key_from_response(None), Err(AwsKmsError::GetError(_))));
    assert!(matches!(signature_from_response(None), Err(AwsKmsError::SignError(_))));
    assert_eq!(public_key_from_response(Some(vec![1, 2])).unwrap(), vec![1, 2]);
    assert_eq!(signature_from_response(Some(vec![3])).unwrap(), vec![3]);
}

#[test]
fn sign_data_response_splits_hex() {
    let mut sig = vec![0u8; 65];
    sig[0] = 0xab;
    sig[32] = 0xcd;
    sig[64] = 1;
    let resp = evm_sign_data_response(&sig).unwrap();
    assert_eq!(resp.r, format!("ab{}", "0".repeat(62)));
    assert_eq!(resp.s, format!("cd{}", "0".repeat(62)));
    assert_eq!(resp.v, 1);
    assert_eq!(resp.sig.len(), 130);
    assert!(resp.sig.starts_with("ab"));
    assert!(resp.sig.ends_with("01"));
    assert!(matches!(evm_sign_data_response(&sig[..64]), Err(SignerError::SigningError(_))));
}

#[test]
fn typed_data_is_not_implemented() {
    assert!(matches!(sign_typed_data_response(), Err(SignerError::NotImplemented(_))));
}

#[test]
fn legacy_parity_is_mapped() {
    assert_eq!(y_parity_from_v(27), 0);
    assert_eq!(y_parity_from_v(28), 1);
    assert_eq!(y_parity_from_v(0), 0);
    assert_eq!(y_parity_from_v(1), 1);
}
