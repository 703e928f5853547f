//! Keccak-256 and the "personal sign" digest built on it.

use crate::bytes::append_bytes;
use crate::decimal::{decimal_digits, push_decimal};
use sha3::Digest;
use vstd::prelude::*;
use vstd::string::*;

verus! {

/// The bytes of `"\x19Ethereum Signed Message:\n"`, which open every signed message.
pub const ETH_PREFIX: [u8; 26] = [
    0x19, 0x45, 0x74, 0x68, 0x65, 0x72, 0x65, 0x75, 0x6d, 0x20, 0x53, 0x69, 0x67, 0x6e,
    0x65, 0x64, 0x20, 0x4d, 0x65, 0x73, 0x73, 0x61, 0x67, 0x65, 0x3a, 0x0a,
];

/// The Keccak-256 digest of `data`, as `sha3::Keccak256` computes it.
pub uninterp spec fn keccak256_digest(data: Seq<u8>) -> Seq<u8>;

/// What is hashed for a payload: the prefix, the payload's length in bytes
/// written in decimal, and the payload itself.
pub open spec fn personal_message(payload: Seq<u8>) -> Seq<u8> {
    ETH_PREFIX@ + decimal_digits(payload.len()) + payload
}

/// The 32-byte digest that a wallet signs for `payload`.
pub open spec fn personal_digest(payload: Seq<u8>) -> Seq<u8> {
    keccak256_digest(personal_message(payload))
}

/// Hashes `data` with `sha3::Keccak256` (`new`, `update`, `finalize`).
///
/// Trusted: the result is the Keccak-256 digest of exactly the bytes given,
/// which depends on nothing else; the digest is 32 bytes long by its type.
#[verifier::external_body]
pub(crate) fn keccak256(data: &[u8]) -> (digest: [u8; 32])
    ensures
        digest@ == keccak256_digest(data@),
        digest@.len() == 32,
{
    let mut hasher = sha3::Keccak256::new();
    hasher.update(data);
    hasher.finalize().into()
}

/// Hashes the bytes of a payload the way wallets do for "personal sign".
pub fn hash_message(payload: &[u8]) -> (digest: [u8; 32])
    ensures
        digest@ == personal_digest(payload@),
{
    let mut message: Vec<u8> = Vec::new();
    append_bytes(&mut message, ETH_PREFIX.as_slice());
    push_decimal(&mut message, payload.len() as u64);
    append_bytes(&mut message, payload);
    assert(message@ =~= personal_message(payload@));
    keccak256(message.as_slice())
}

/// Hashes a text payload: the digest of its UTF-8 bytes.
pub fn hash_keccak256(payload: &str) -> (digest: [u8; 32])
    ensures
        digest@ == personal_digest(payload.spec_bytes()),
{
    hash_message(payload.as_bytes())
}

} // verus!
