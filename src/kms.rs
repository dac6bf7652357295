//! Turning a key-management service's DER answers into a recoverable
//! signature: recovery-identifier resolution and signature assembly.
use vstd::prelude::*;

use crate::der::{extract_public_key_from_der, public_key_of_der, uncompressed_coordinates, DerError};

verus! {

/// The errors of the signing service, each with a readable message.
#[derive(Debug, Clone)]
pub enum AwsKmsError {
    /// Malformed DER or ASN.1 in an answer of the service.
    ParseError(String),
    /// Invalid configuration of the service client.
    ConfigError(String),
    /// The service could not be reached or the key lookup failed.
    GetError(String),
    /// The service returned no usable signature.
    SignError(String),
    /// The service denied access.
    PermissionError(String),
    /// Neither recovery identifier matched the known public key.
    RecoveryError(String),
    /// Anything else.
    Other(String),
}

impl AwsKmsError {
    /// A key that could not be read is a parse error of the service's answer.
    pub fn from_der_error(e: DerError) -> (r: AwsKmsError)
        ensures
            e matches DerError::ParseError(m) && (r matches AwsKmsError::ParseError(n) && n@ == m@),
    {
        match e {
            DerError::ParseError(m) => AwsKmsError::ParseError(m),
        }
    }
}

/// Names the `(r, s)` bytes, `r ‖ s` in 32 bytes each, of a DER-encoded
/// ECDSA signature; `None` where it does not decode to a secp256k1
/// signature.
pub uninterp spec fn der_signature_of(der: Seq<u8>) -> Option<Seq<u8>>;

/// Names the uncompressed SEC1 encoding of the public key that ECDSA
/// recovery yields from a 32-byte prehash, the signature `r ‖ s` and the
/// recovery identifier `v`; `None` where recovery fails.
pub uninterp spec fn recovered_point_of(prehash: Seq<u8>, rs: Seq<u8>, v: u8) -> Option<Seq<u8>>;

/// Relies on k256's `Signature::from_der` and `Signature::to_bytes`: the
/// `r ‖ s` bytes of a DER-encoded signature, or the decoder's error.
#[verifier::external_body]
fn decode_der_signature(der: &[u8]) -> (r: Result<[u8; 64], String>)
    ensures
        r matches Ok(rs) ==> der_signature_of(der@) == Some(rs@),
        r is Err ==> der_signature_of(der@) is None,
{
    k256::ecdsa::Signature::from_der(der).map(|sig| {
        let mut rs = [0u8; 64];
        rs.copy_from_slice(&sig.to_bytes());
        rs
    }).map_err(|e| e.to_string())
}

/// Relies on k256's `VerifyingKey::recover_from_prehash` (with the signature
/// read by `Signature::from_slice` and the identifier by
/// `RecoveryId::from_byte`) and `to_encoded_point(false)`: the uncompressed
/// point of the recovered key, or `None` where any of them fails.
#[verifier::external_body]
fn recover_point(prehash: &[u8; 32], rs: &[u8; 64], v: u8) -> (r: Option<Vec<u8>>)
    ensures
        r matches Some(p) ==> recovered_point_of(prehash@, rs@, v) == Some(p@),
        r is None ==> recovered_point_of(prehash@, rs@, v) is None,
{
    let sig = k256::ecdsa::Signature::from_slice(rs).ok()?;
    let id = k256::ecdsa::RecoveryId::from_byte(v)?;
    let key = k256::ecdsa::VerifyingKey::recover_from_prehash(prehash, &sig, id).ok()?;
    Some(key.to_encoded_point(false).as_bytes().to_vec())
}

/// Whether recovery with identifier `v` yields the point whose coordinates
/// are `key`.
pub open spec fn candidate_matches(key: Seq<u8>, rs: Seq<u8>, digest: Seq<u8>, v: u8) -> bool {
    match recovered_point_of(digest, rs, v) {
        Some(point) => uncompressed_coordinates(point) == Some(key),
        None => false,
    }
}

/// The first identifier, 0 before 1, whose recovered point is `key`.
pub open spec fn recovery_id_of(key: Seq<u8>, rs: Seq<u8>, digest: Seq<u8>) -> Option<u8> {
    if candidate_matches(key, rs, digest, 0) {
        Some(0)
    } else if candidate_matches(key, rs, digest, 1) {
        Some(1)
    } else {
        None
    }
}

/// A resolved recovery identifier is one of 0 and 1, and recovery with it
/// yields the uncompressed point whose coordinates are `key`; where it is 1,
/// recovery with 0 does not yield `key`.
pub proof fn lemma_resolved_id_recovers_key(key: Seq<u8>, rs: Seq<u8>, digest: Seq<u8>)
    requires
        recovery_id_of(key, rs, digest) is Some,
    ensures
        ({
            let v = recovery_id_of(key, rs, digest).unwrap();
            &&& v == 0 || v == 1
            &&& recovered_point_of(digest, rs, v) matches Some(point) && uncompressed_coordinates(
                point,
            ) == Some(key)
            &&& v == 1 ==> !candidate_matches(key, rs, digest, 0)
        }),
{
}

/// Whether a recovered point, in uncompressed SEC1 form, has the
/// coordinates `key`.
pub fn point_matches_key(point: &[u8], key: &[u8; 64]) -> (r: bool)
    ensures
        r == (uncompressed_coordinates(point@) == Some(key@)),
{
    if point.len() != 65 || point[0] != 4 {
        return false;
    }
    let mut i: usize = 0;
    while i < 64
        invariant
            point@.len() == 65,
            0 <= i <= 64,
            forall|j: int| 0 <= j < i ==> point@[j + 1] == key@[j],
        decreases 64 - i,
    {
        if point[i + 1] != key[i] {
            assert(point@.subrange(1, 65)[i as int] != key@[i as int]);
            return false;
        }
        i = i + 1;
    }
    assert(point@.subrange(1, 65) =~= key@);
    true
}

/// Whether recovery with identifier `v` yields the public key `key`.
fn candidate_recovers_key(key: &[u8; 64], rs: &[u8; 64], digest: &[u8; 32], v: u8) -> (r: bool)
    ensures
        r == candidate_matches(key@, rs@, digest@, v),
{
    match recover_point(digest, rs, v) {
        Some(point) => point_matches_key(point.as_slice(), key),
        None => false,
    }
}

/// Resolves the recovery identifier of the signature `rs` over `digest`:
/// the first of 0 and 1 whose recovered public key is `key`.
pub fn recover_public_key(key: &[u8; 64], rs: &[u8; 64], digest: &[u8; 32]) -> (r: Result<
    u8,
    AwsKmsError,
>)
    ensures
        r matches Ok(v) ==> recovery_id_of(key@, rs@, digest@) == Some(v),
        r is Err ==> recovery_id_of(key@, rs@, digest@) is None && r matches Err(
            AwsKmsError::RecoveryError(_),
        ),
{
    if candidate_recovers_key(key, rs, digest, 0) {
        Ok(0)
    } else if candidate_recovers_key(key, rs, digest, 1) {
        Ok(1)
    } else {
        Err(AwsKmsError::RecoveryError("No valid v point was found".to_string()))
    }
}

/// Assembles the 65-byte recoverable signature `r ‖ s ‖ v`.
pub fn assemble_signature(rs: &[u8; 64], v: u8) -> (r: Vec<u8>)
    ensures
        r@ == rs@.push(v),
        r@.len() == 65,
{
    let mut sig: Vec<u8> = Vec::with_capacity(65);
    let mut i: usize = 0;
    while i < 64
        invariant
            0 <= i <= 64,
            sig@ == rs@.subrange(0, i as int),
        decreases 64 - i,
    {
        sig.push(rs[i]);
        i = i + 1;
    }
    assert(rs@.subrange(0, 64) =~= rs@);
    sig.push(v);
    sig
}

/// The recoverable signature made of the service's DER signature over
/// `digest` and its DER public key, or the kind of error that stops it.
pub open spec fn evm_signature_of(digest: Seq<u8>, der_signature: Seq<u8>, der_public_key: Seq<u8>) -> Option<Seq<u8>> {
    match (der_signature_of(der_signature), public_key_of_der(der_public_key)) {
        (Some(rs), Some(key)) => match recovery_id_of(key, rs, digest) {
            Some(v) => Some(rs.push(v)),
            None => None,
        },
        _ => None,
    }
}

/// Makes the recoverable signature out of the service's DER signature over
/// `digest` and the service's DER public key.
pub fn evm_signature_from_der(
    digest: &[u8; 32],
    der_signature: &[u8],
    der_public_key: &[u8],
) -> (r: Result<Vec<u8>, AwsKmsError>)
    ensures
        r matches Ok(sig) ==> evm_signature_of(digest@, der_signature@, der_public_key@) == Some(
            sig@,
        ) && sig@.len() == 65,
        r is Err ==> evm_signature_of(digest@, der_signature@, der_public_key@) is None,
        der_signature_of(der_signature@) is None ==> r matches Err(AwsKmsError::ParseError(_)),
        der_signature_of(der_signature@) is Some && public_key_of_der(der_public_key@) is None
            ==> r matches Err(AwsKmsError::ParseError(_)),
        (der_signature_of(der_signature@) matches Some(rs) && public_key_of_der(der_public_key@)
            matches Some(key) && recovery_id_of(key, rs, digest@) is None) ==> r matches Err(
            AwsKmsError::RecoveryError(_),
        ),
{
    let rs = match decode_der_signature(der_signature) {
        Ok(rs) => rs,
        Err(e) => return Err(AwsKmsError::ParseError(e)),
    };
    let key = match extract_public_key_from_der(der_public_key) {
        Ok(key) => key,
        Err(e) => return Err(AwsKmsError::from_der_error(e)),
    };
    let v = recover_public_key(&key, &rs, digest)?;
    Ok(assemble_signature(&rs, v))
}

/// The public key blob of a key lookup, which must be present.
pub fn public_key_from_response(blob: Option<Vec<u8>>) -> (r: Result<Vec<u8>, AwsKmsError>)
    ensures
        blob matches Some(b) ==> (r matches Ok(k) && k@ == b@),
        blob is None ==> r matches Err(AwsKmsError::GetError(_)),
{
    match blob {
        Some(b) => Ok(b),
        None => Err(AwsKmsError::GetError("No public key blob found".to_string())),
    }
}

/// The signature blob of a signing answer, which must be present.
pub fn signature_from_response(blob: Option<Vec<u8>>) -> (r: Result<Vec<u8>, AwsKmsError>)
    ensures
        blob matches Some(b) ==> (r matches Ok(s) && s@ == b@),
        blob is None ==> r matches Err(AwsKmsError::SignError(_)),
{
    match blob {
        Some(b) => Ok(b),
        None => Err(AwsKmsError::SignError("Signature not found in response".to_string())),
    }
}

} // verus!
