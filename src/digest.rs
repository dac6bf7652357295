//! The digest that is submitted for signing.
use vstd::prelude::*;

verus! {

/// Names the Keccak-256 hash of a byte string.
pub uninterp spec fn keccak_of(data: Seq<u8>) -> Seq<u8>;

/// Relies on alloy's `keccak256`: the 32-byte Keccak-256 hash of `data`.
#[verifier::external_body]
pub(crate) fn keccak256(data: &[u8]) -> (r: [u8; 32])
    ensures
        r@ == keccak_of(data@),
{
    alloy::primitives::keccak256(data).0
}

/// The decimal digits of `n`, most significant first, as ASCII bytes.
pub open spec fn decimal_digits(n: nat) -> Seq<u8>
    decreases n,
{
    if n < 10 {
        seq![(48 + n) as u8]
    } else {
        decimal_digits(n / 10).push((48 + n % 10) as u8)
    }
}

/// The personal-message prefix `"\x19Ethereum Signed Message:\n"` as bytes.
pub open spec fn personal_message_prefix() -> Seq<u8> {
    seq![
        0x19u8, 0x45, 0x74, 0x68, 0x65, 0x72, 0x65, 0x75, 0x6d, 0x20, 0x53, 0x69, 0x67, 0x6e,
        0x65, 0x64, 0x20, 0x4d, 0x65, 0x73, 0x73, 0x61, 0x67, 0x65, 0x3a, 0x0a,
    ]
}

/// The personal message of `payload`: the prefix, the payload's length in
/// decimal, then the payload itself.
pub open spec fn personal_message(payload: Seq<u8>) -> Seq<u8> {
    personal_message_prefix() + decimal_digits(payload.len()) + payload
}

/// Relies on alloy's `eip191_message`: the prefix, the decimal length of
/// `message` (written by `itoa`), then `message`.
#[verifier::external_body]
pub(crate) fn eip191_message(message: &[u8]) -> (r: Vec<u8>)
    ensures
        r@ == personal_message(message@),
{
    alloy::primitives::utils::eip191_message(message)
}

/// What kind of payload is signed, which decides how it is hashed.
#[derive(Debug, Clone, Copy, PartialEq, Eq, Structural)]
pub enum PayloadType {
    /// An already serialized unsigned transaction: hashed as it stands.
    Transaction,
    /// A personal message: hashed after the personal-message prefix.
    Message,
}

/// The bytes whose Keccak-256 hash is the digest of `payload`.
pub open spec fn digest_preimage(payload: Seq<u8>, kind: PayloadType) -> Seq<u8> {
    match kind {
        PayloadType::Transaction => payload,
        PayloadType::Message => personal_message(payload),
    }
}

/// The digest of `payload` for its kind.
pub open spec fn digest_of(payload: Seq<u8>, kind: PayloadType) -> Seq<u8> {
    keccak_of(digest_preimage(payload, kind))
}

/// Computes the 32-byte digest that is submitted for signing.
pub fn compute_digest(payload: &[u8], kind: PayloadType) -> (r: [u8; 32])
    ensures
        r@ == digest_of(payload@, kind),
        r@.len() == 32,
{
    match kind {
        PayloadType::Transaction => keccak256(payload),
        PayloadType::Message => {
            let message = eip191_message(payload);
            keccak256(message.as_slice())
        },
    }
}

/// The digest is a function of the payload and its kind alone: equal
/// payloads of one kind have equal digests.
pub proof fn lemma_digest_deterministic(a: Seq<u8>, b: Seq<u8>, kind: PayloadType)
    requires
        a == b,
    ensures
        digest_of(a, kind) == digest_of(b, kind),
{
}

/// For the same payload, the bytes hashed for a message differ from those
/// hashed for a transaction: the message's are longer by the prefix and the
/// decimal length.
pub proof fn lemma_message_preimage_differs(payload: Seq<u8>)
    ensures
        digest_preimage(payload, PayloadType::Message) != digest_preimage(
            payload,
            PayloadType::Transaction,
        ),
        digest_preimage(payload, PayloadType::Message).len() > digest_preimage(
            payload,
            PayloadType::Transaction,
        ).len(),
{
    assert(personal_message(payload).len() > payload.len());
}

} // verus!
