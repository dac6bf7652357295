//! Responses of the signer built on the signing service.
use vstd::prelude::*;

use vstd::slice::slice_subrange;

verus! {

/// The errors of the signer.
#[derive(Debug, Clone)]
pub enum SignerError {
    /// The signing service returned an unusable signature.
    SigningError(String),
    /// A signature could not be converted.
    ConversionError(String),
    /// The operation is not available for this signer.
    NotImplemented(String),
}

/// A personal-message signature, split into its parts.
#[derive(Debug, Clone)]
pub struct SignDataResponseEvm {
    /// `r` in lowercase hex, 64 digits.
    pub r: String,
    /// `s` in lowercase hex, 64 digits.
    pub s: String,
    /// The recovery identifier.
    pub v: u8,
    /// The whole signature `r ‖ s ‖ v` in lowercase hex, 130 digits.
    pub sig: String,
}

/// The lowercase hex digit of a value below 16.
pub open spec fn hex_digit(n: u8) -> char {
    seq!['0', '1', '2', '3', '4', '5', '6', '7', '8', '9', 'a', 'b', 'c', 'd', 'e', 'f'][n as int]
}

/// Lowercase hex of a byte string, two digits per byte, high nibble first.
pub open spec fn hex_of(b: Seq<u8>) -> Seq<char> {
    Seq::new(
        2 * b.len(),
        |i: int|
            if i % 2 == 0 {
                hex_digit(b[i / 2] / 16)
            } else {
                hex_digit(b[i / 2] % 16)
            },
    )
}

/// Relies on `hex::encode`: two lowercase hex digits for each byte, high
/// nibble first.
#[verifier::external_body]
fn hex_encode(b: &[u8]) -> (r: String)
    ensures
        r@ == hex_of(b@),
{
    hex::encode(b)
}

/// Splits a 65-byte recoverable signature into the parts of a response.
pub fn evm_sign_data_response(signature: &[u8]) -> (r: Result<SignDataResponseEvm, SignerError>)
    ensures
        signature@.len() != 65 ==> r matches Err(SignerError::SigningError(_)),
        signature@.len() == 65 ==> (r matches Ok(resp) && resp.r@ == hex_of(
            signature@.subrange(0, 32),
        ) && resp.s@ == hex_of(signature@.subrange(32, 64)) && resp.v == signature@[64]
            && resp.sig@ == hex_of(signature@)),
{
    if signature.len() != 65 {
        return Err(
            SignerError::SigningError(
                "Invalid signature length from AWS KMS: expected 65 bytes".to_string(),
            ),
        );
    }
    let r = hex_encode(slice_subrange(signature, 0, 32));
    let s = hex_encode(slice_subrange(signature, 32, 64));
    let v = signature[64];
    let sig = hex_encode(signature);
    Ok(SignDataResponseEvm { r, s, v, sig })
}

/// Typed structured-data signing is not available: always `NotImplemented`.
pub fn sign_typed_data_response() -> (r: Result<SignDataResponseEvm, SignerError>)
    ensures
        r matches Err(SignerError::NotImplemented(_)),
{
    Err(
        SignerError::NotImplemented(
            "EIP-712 typed data signing not yet implemented for AWS KMS".to_string(),
        ),
    )
}

/// The raw parity 0 or 1 of a legacy recovery value 27 or 28; any other
/// value is kept.
pub fn y_parity_from_v(v: u8) -> (r: u8)
    ensures
        v == 27 ==> r == 0,
        v == 28 ==> r == 1,
        v != 27 && v != 28 ==> r == v,
{
    if v == 27 {
        0
    } else if v == 28 {
        1
    } else {
        v
    }
}

} // verus!
