//! The secp256k1 operations that signature checking rests on.
//!
//! Keys, signatures and digests cross this boundary as plain bytes; each
//! function here parses them with `libsecp256k1` and hands plain values back.

use vstd::prelude::*;

verus! {

/// Length of a message digest.
pub const MESSAGE_SIZE: usize = 32;

/// Length of a compact signature, `r` followed by `s`.
pub const SIGNATURE_SIZE: usize = 64;

/// Length of an uncompressed public key with its tag byte.
pub const FULL_PUBLIC_KEY_SIZE: usize = 65;

/// Length of an uncompressed public key without a tag byte.
pub const RAW_PUBLIC_KEY_SIZE: usize = 64;

/// Length of a compressed public key.
pub const COMPRESSED_PUBLIC_KEY_SIZE: usize = 33;

/// The layouts in which a public key can be written down.
#[derive(Clone, Copy, Debug, PartialEq, Eq, Structural)]
pub enum KeyFormat {
    /// Tag byte, then `x` and `y`: 65 bytes.
    Full,
    /// `x` and `y` alone: 64 bytes.
    Raw,
    /// Tag byte, then `x`: 33 bytes.
    Compressed,
}

/// The order of the group that signatures are made in.
pub open spec fn group_order() -> nat {
    0xFFFFFFFFFFFFFFFFFFFFFFFFFFFFFFFEBAAEDCE6AF48A03BBFD25E8CD0364141nat
}

/// The number that `bytes` write down, the first byte counting most.
pub open spec fn big_endian(bytes: Seq<u8>) -> nat
    decreases bytes.len(),
{
    if bytes.len() == 0 {
        0
    } else {
        big_endian(bytes.drop_last()) * 256 + bytes.last() as nat
    }
}

/// `signature` is a standard compact signature: 64 bytes, of which the
/// first 32 and the last 32 each write down a number below the group order.
pub open spec fn signature_parses(signature: Seq<u8>) -> bool {
    &&& signature.len() == SIGNATURE_SIZE
    &&& big_endian(signature.subrange(0, 32)) < group_order()
    &&& big_endian(signature.subrange(32, 64)) < group_order()
}

/// `libsecp256k1::PublicKey::parse_slice` accepts `key` in the given format.
pub uninterp spec fn public_key_parses(key: Seq<u8>, format: KeyFormat) -> bool;

/// The key that `libsecp256k1::recover` finds for a digest, a signature and
/// a recovery id, in its 65-byte serialization; `None` where it finds none.
pub uninterp spec fn recovered_public_key(
    digest: Seq<u8>,
    signature: Seq<u8>,
    recovery_id: u8,
) -> Option<Seq<u8>>;

/// `libsecp256k1::verify` accepts the signature for the digest under the key.
pub uninterp spec fn ecdsa_accepts(
    digest: Seq<u8>,
    signature: Seq<u8>,
    key: Seq<u8>,
    format: KeyFormat,
) -> bool;

/// Asks `libsecp256k1::Signature::parse_standard_slice` whether `signature`
/// is a standard compact signature.
///
/// Trusted: that function succeeds exactly on 64 bytes whose two halves,
/// read as big-endian numbers, are both below the group order.
#[verifier::external_body]
pub(crate) fn signature_is_standard(signature: &[u8]) -> (ok: bool)
    ensures
        ok == signature_parses(signature@),
{
    libsecp256k1::Signature::parse_standard_slice(signature).is_ok()
}

/// Asks `libsecp256k1::PublicKey::parse_slice` whether `key` is a point of
/// the curve written in `format`.
///
/// Trusted: the answer is that function's, which depends on the bytes and
/// the format alone.
#[verifier::external_body]
pub(crate) fn public_key_is_valid(key: &[u8], format: KeyFormat) -> (ok: bool)
    ensures
        ok == public_key_parses(key@, format),
{
    let format = match format {
        KeyFormat::Full => libsecp256k1::PublicKeyFormat::Full,
        KeyFormat::Raw => libsecp256k1::PublicKeyFormat::Raw,
        KeyFormat::Compressed => libsecp256k1::PublicKeyFormat::Compressed,
    };
    libsecp256k1::PublicKey::parse_slice(key, Some(format)).is_ok()
}

/// Recovers the signer's key with `libsecp256k1::recover` and serializes it.
///
/// Trusted: the result is what `recover` returns for the parsed digest,
/// signature and recovery id, which depends on nothing else; a key is
/// serialized in 65 bytes. The preconditions are those under which the
/// three parse without error.
#[verifier::external_body]
pub(crate) fn recover_public_key(digest: &[u8], signature: &[u8], recovery_id: u8) -> (key: Option<
    Vec<u8>,
>)
    requires
        digest@.len() == MESSAGE_SIZE,
        signature_parses(signature@),
        recovery_id < 4,
    ensures
        recovered_public_key(digest@, signature@, recovery_id) == match key {
            Some(k) => Some(k@),
            None => None,
        },
        key matches Some(k) ==> k@.len() == FULL_PUBLIC_KEY_SIZE,
{
    let message = libsecp256k1::Message::parse_slice(digest).ok()?;
    let signature = libsecp256k1::Signature::parse_standard_slice(signature).ok()?;
    let recovery_id = libsecp256k1::RecoveryId::parse(recovery_id).ok()?;
    let key = libsecp256k1::recover(&message, &signature, &recovery_id).ok()?;
    Some(key.serialize().to_vec())
}

/// Checks a signature with `libsecp256k1::verify`.
///
/// Trusted: the result is what `verify` returns for the parsed digest,
/// signature and key, which depends on nothing else. The preconditions are
/// those under which the three parse without error.
#[verifier::external_body]
pub(crate) fn ecdsa_verify(digest: &[u8], signature: &[u8], key: &[u8], format: KeyFormat) -> (ok:
    bool)
    requires
        digest@.len() == MESSAGE_SIZE,
        signature_parses(signature@),
        public_key_parses(key@, format),
    ensures
        ok == ecdsa_accepts(digest@, signature@, key@, format),
{
    let format = match format {
        KeyFormat::Full => libsecp256k1::PublicKeyFormat::Full,
        KeyFormat::Raw => libsecp256k1::PublicKeyFormat::Raw,
        KeyFormat::Compressed => libsecp256k1::PublicKeyFormat::Compressed,
    };
    let message = libsecp256k1::Message::parse_slice(digest);
    let signature = libsecp256k1::Signature::parse_standard_slice(signature);
    let key = libsecp256k1::PublicKey::parse_slice(key, Some(format));
    match (message, signature, key) {
        (Ok(m), Ok(s), Ok(k)) => libsecp256k1::verify(&m, &s, &k),
        _ => false,
    }
}

} // verus!
