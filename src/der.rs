//! Public keys in SubjectPublicKeyInfo DER or PEM form, and the addresses
//! derived from them.
use vstd::prelude::*;

use k256::pkcs8::DecodePublicKey;

use crate::digest::{keccak256, keccak_of};

verus! {

/// Why a public key could not be read.
#[derive(Debug, Clone)]
pub enum DerError {
    /// Malformed PEM, DER or ASN.1, or a key that is not on secp256k1.
    ParseError(String),
}

/// Names the SEC1 encoding of the secp256k1 point held in a
/// SubjectPublicKeyInfo DER document, uncompressed; `None` where the
/// document does not decode to a secp256k1 public key.
pub uninterp spec fn spki_point_of(der: Seq<u8>) -> Option<Seq<u8>>;

/// Names the binary contents of a PEM document; `None` where the text is
/// not PEM.
pub uninterp spec fn pem_contents_of(text: Seq<char>) -> Option<Seq<u8>>;

/// Relies on k256's `VerifyingKey::from_public_key_der` and
/// `to_encoded_point(false)`: the uncompressed point of the key that `der`
/// encodes, or the decoder's error.
#[verifier::external_body]
fn decode_spki_point(der: &[u8]) -> (r: Result<Vec<u8>, String>)
    ensures
        r matches Ok(p) ==> spki_point_of(der@) == Some(p@),
        r is Err ==> spki_point_of(der@) is None,
{
    k256::ecdsa::VerifyingKey::from_public_key_der(der)
        .map(|k| k.to_encoded_point(false).as_bytes().to_vec())
        .map_err(|e| e.to_string())
}

/// Relies on `pem::parse` and `Pem::contents`: the binary contents of the
/// PEM document `text`, or the parser's error.
#[verifier::external_body]
fn parse_pem(text: &str) -> (r: Result<Vec<u8>, String>)
    ensures
        r matches Ok(c) ==> pem_contents_of(text@) == Some(c@),
        r is Err ==> pem_contents_of(text@) is None,
{
    pem::parse(text).map(|p| p.contents().to_vec()).map_err(|e| e.to_string())
}

/// The 64 coordinate bytes `X ‖ Y` of an uncompressed SEC1 point
/// `0x04 ‖ X ‖ Y`; `None` for any other encoding.
pub open spec fn uncompressed_coordinates(point: Seq<u8>) -> Option<Seq<u8>> {
    if point.len() == 65 && point[0] == 4 {
        Some(point.subrange(1, 65))
    } else {
        None
    }
}

/// The raw 64-byte public key held in a DER document, if any.
pub open spec fn public_key_of_der(der: Seq<u8>) -> Option<Seq<u8>> {
    match spki_point_of(der) {
        Some(point) => uncompressed_coordinates(point),
        None => None,
    }
}

/// The address of a raw public key: the last 20 bytes of its Keccak-256 hash.
pub open spec fn address_of_key(key: Seq<u8>) -> Seq<u8> {
    keccak_of(key).subrange(12, 32)
}

/// The address held in a DER document, if it holds a public key.
pub open spec fn address_of_der(der: Seq<u8>) -> Option<Seq<u8>> {
    match public_key_of_der(der) {
        Some(key) => Some(address_of_key(key)),
        None => None,
    }
}

/// Strips the tag of an uncompressed SEC1 point.
pub fn coordinates_from_point(point: &[u8]) -> (r: Option<[u8; 64]>)
    ensures
        r matches Some(k) ==> uncompressed_coordinates(point@) == Some(k@),
        r is None ==> uncompressed_coordinates(point@) is None,
{
    if point.len() != 65 || point[0] != 4 {
        return None;
    }
    let mut key = [0u8; 64];
    let mut i: usize = 0;
    while i < 64
        invariant
            point@.len() == 65,
            0 <= i <= 64,
            forall|j: int| 0 <= j < i ==> key@[j] == point@[j + 1],
        decreases 64 - i,
    {
        key.set(i, point[i + 1]);
        i = i + 1;
    }
    assert(key@ =~= point@.subrange(1, 65));
    Some(key)
}

/// The address that belongs to a public key whose Keccak-256 hash is `hash`.
pub fn address_from_key_hash(hash: &[u8; 32]) -> (r: [u8; 20])
    ensures
        r@ == hash@.subrange(12, 32),
{
    let mut address = [0u8; 20];
    let mut i: usize = 0;
    while i < 20
        invariant
            0 <= i <= 20,
            hash@.len() == 32,
            forall|j: int| 0 <= j < i ==> address@[j] == hash@[j + 12],
        decreases 20 - i,
    {
        address.set(i, hash[i + 12]);
        i = i + 1;
    }
    assert(address@ =~= hash@.subrange(12, 32));
    address
}

/// Derives the 20-byte address of a raw 64-byte public key.
pub fn address_from_public_key(key: &[u8; 64]) -> (r: [u8; 20])
    ensures
        r@ == address_of_key(key@),
{
    let hash = keccak256(key.as_slice());
    address_from_key_hash(&hash)
}

/// Extracts the raw 64-byte key `X ‖ Y` from a SubjectPublicKeyInfo DER
/// document holding a secp256k1 key.
pub fn extract_public_key_from_der(der: &[u8]) -> (r: Result<[u8; 64], DerError>)
    ensures
        r matches Ok(k) ==> public_key_of_der(der@) == Some(k@),
        r is Err ==> public_key_of_der(der@) is None,
{
    let point = match decode_spki_point(der) {
        Ok(point) => point,
        Err(e) => return Err(DerError::ParseError(e)),
    };
    match coordinates_from_point(point.as_slice()) {
        Some(key) => Ok(key),
        None => Err(DerError::ParseError("the key is not an uncompressed point".to_string())),
    }
}

/// Derives the 20-byte address of the key held in a DER document.
pub fn derive_ethereum_address_from_der(der: &[u8]) -> (r: Result<[u8; 20], DerError>)
    ensures
        r matches Ok(a) ==> address_of_der(der@) == Some(a@),
        r is Err ==> address_of_der(der@) is None,
{
    let key = extract_public_key_from_der(der)?;
    Ok(address_from_public_key(&key))
}

/// Derives the 20-byte address of the key held in a PEM document.
pub fn derive_ethereum_address_from_pem(pem_str: &str) -> (r: Result<[u8; 20], DerError>)
    ensures
        r matches Ok(a) ==> (pem_contents_of(pem_str@) matches Some(der) && address_of_der(der)
            == Some(a@)),
        r is Err ==> (pem_contents_of(pem_str@) matches Some(der) ==> address_of_der(der) is None),
{
    let der = match parse_pem(pem_str) {
        Ok(der) => der,
        Err(e) => return Err(DerError::ParseError(e)),
    };
    derive_ethereum_address_from_der(der.as_slice())
}

/// The address read from a DER document depends on the document alone: two
/// readings of the same key give the same address.
pub proof fn lemma_address_stable(a: Seq<u8>, b: Seq<u8>)
    requires
        a == b,
    ensures
        address_of_der(a) == address_of_der(b),
{
}

} // verus!
