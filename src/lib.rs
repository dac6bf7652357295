//! Recoverable EVM signatures from a remote secp256k1 signing key.
//!
//! The library computes the digest that is handed to the signing key,
//! extracts the key's coordinates from its DER encoding, resolves the
//! recovery identifier of a plain `(r, s)` signature and assembles the
//! 65-byte `r ‖ s ‖ v` signature.

pub mod der;
pub mod digest;
pub mod kms;
pub mod signer;

pub use digest::{compute_digest, PayloadType};
pub use der::{
    derive_ethereum_address_from_der, derive_ethereum_address_from_pem,
    extract_public_key_from_der, DerError,
};
pub use kms::{
    assemble_signature, evm_signature_from_der, point_matches_key, recover_public_key, AwsKmsError,
};
pub use signer::{
    evm_sign_data_response, sign_typed_data_response, y_parity_from_v, SignDataResponseEvm,
    SignerError,
};
