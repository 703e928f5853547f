//! The message verifier: signature checking and the replay guard around it.

use crate::digest::{hash_keccak256, hash_message, personal_digest};
use crate::encoding::{base64_decode, base64_decoded};
use crate::replay::ReplayGuard;
use crate::secp::{
    ecdsa_accepts, ecdsa_verify, public_key_is_valid, public_key_parses, recover_public_key,
    recovered_public_key, signature_is_standard, signature_parses, KeyFormat,
    COMPRESSED_PUBLIC_KEY_SIZE, FULL_PUBLIC_KEY_SIZE, MESSAGE_SIZE, RAW_PUBLIC_KEY_SIZE,
    SIGNATURE_SIZE,
};
use crate::sorted::keys_sorted;
use crate::verify::{MsgIn, MsgInView, Payload, PayloadView, Verification, VerifyError};
use vstd::prelude::*;
use vstd::string::*;
use vstd::utf8::encode_utf8;

verus! {

/// Length of a key field that holds a recovery id in place of a key.
pub const RECOVERY_ID_SIZE: usize = 1;

/// The compressed public key of the signer whose messages are trusted.
pub const TRUSTED_SIGNER_KEY: [u8; 33] = [
    2, 142, 36, 253, 150, 84, 241, 44, 121, 61, 61, 55, 108, 21, 247, 171, 229, 62, 15, 189, 83,
    120, 132, 163, 169, 141, 16, 210, 220, 109, 81, 59, 78,
];

/// The verifier's state: the one-time identifiers it has consumed.
pub struct State {
    pub uuids: ReplayGuard,
}

/// The verifier's state as it is saved: the consumed identifiers as a list.
#[derive(Clone, Debug)]
pub struct StableState {
    pub uuids: Vec<String>,
}

impl View for State {
    type V = Set<Seq<char>>;

    open spec fn view(&self) -> Set<Seq<char>> {
        self.uuids@
    }
}

impl View for StableState {
    type V = Seq<Seq<char>>;

    open spec fn view(&self) -> Seq<Seq<char>> {
        self.uuids.deep_view()
    }
}

impl State {
    /// The replay guard is in order.
    pub open spec fn wf(&self) -> bool {
        self.uuids.wf()
    }

    /// Tells whether the replay guard is in order.
    pub fn is_wf(&self) -> (ok: bool)
        ensures
            ok == self.wf(),
    {
        self.uuids.is_wf()
    }

    /// A state that has consumed nothing.
    pub fn new() -> (state: State)
        ensures
            state@ == Set::<Seq<char>>::empty(),
            state.wf(),
    {
        State { uuids: ReplayGuard::new() }
    }
}

impl Default for State {
    fn default() -> (state: State)
        ensures
            state@ == Set::<Seq<char>>::empty(),
            state.wf(),
    {
        State::new()
    }
}

/// How a key field of the given length is read, where it holds a key.
pub open spec fn key_format_of(len: nat) -> Option<KeyFormat> {
    if len == FULL_PUBLIC_KEY_SIZE {
        Some(KeyFormat::Full)
    } else if len == RAW_PUBLIC_KEY_SIZE {
        Some(KeyFormat::Raw)
    } else if len == COMPRESSED_PUBLIC_KEY_SIZE {
        Some(KeyFormat::Compressed)
    } else {
        None
    }
}

/// The key that a key field stands for, with the format it is written in:
/// the field itself where it has the length of a key; the key recovered from
/// digest and signature where it is one byte, a recovery id below 4; and
/// none for any other field.
pub open spec fn resolved_key(digest: Seq<u8>, signature: Seq<u8>, key_field: Seq<u8>) -> Option<
    (Seq<u8>, KeyFormat),
> {
    if key_field.len() == RECOVERY_ID_SIZE {
        if key_field[0] < 4 {
            match recovered_public_key(digest, signature, key_field[0]) {
                Some(key) => Some((key, KeyFormat::Full)),
                None => None,
            }
        } else {
            None
        }
    } else {
        match key_format_of(key_field.len()) {
            Some(format) => Some((key_field, format)),
            None => None,
        }
    }
}

/// The signature holds for the digest under the key that the key field
/// stands for: digest and signature have their lengths, the signature is a
/// standard one, the key is a point of the curve, and the signature verifies.
pub open spec fn signature_accepted(digest: Seq<u8>, signature: Seq<u8>, key_field: Seq<u8>) -> bool {
    &&& digest.len() == MESSAGE_SIZE
    &&& signature.len() == SIGNATURE_SIZE
    &&& signature_parses(signature)
    &&& match resolved_key(digest, signature, key_field) {
        Some((key, format)) => public_key_parses(key, format) && ecdsa_accepts(
            digest,
            signature,
            key,
            format,
        ),
        None => false,
    }
}

/// Checks a compact signature over a 32-byte digest against a key field.
///
/// The field's length says how to read it: 65 bytes are a full key, 64 a
/// raw key, 33 a compressed key, and a single byte is a recovery id, for
/// which the key is recovered from digest and signature. Whatever fails to
/// parse, and any other length, gives `false`.
pub fn verify(verification: &Verification) -> (ok: bool)
    ensures
        ok == signature_accepted(
            verification.message@,
            verification.signature@,
            verification.public_key@,
        ),
{
    let digest = verification.message.as_slice();
    let signature = verification.signature.as_slice();
    let key_field = verification.public_key.as_slice();
    if digest.len() != MESSAGE_SIZE {
        return false;
    }
    if signature.len() != SIGNATURE_SIZE {
        return false;
    }
    if !signature_is_standard(signature) {
        return false;
    }
    if key_field.len() == FULL_PUBLIC_KEY_SIZE {
        public_key_is_valid(key_field, KeyFormat::Full) && ecdsa_verify(
            digest,
            signature,
            key_field,
            KeyFormat::Full,
        )
    } else if key_field.len() == RAW_PUBLIC_KEY_SIZE {
        public_key_is_valid(key_field, KeyFormat::Raw) && ecdsa_verify(
            digest,
            signature,
            key_field,
            KeyFormat::Raw,
        )
    } else if key_field.len() == COMPRESSED_PUBLIC_KEY_SIZE {
        public_key_is_valid(key_field, KeyFormat::Compressed) && ecdsa_verify(
            digest,
            signature,
            key_field,
            KeyFormat::Compressed,
        )
    } else if key_field.len() == RECOVERY_ID_SIZE {
        let recovery_id = key_field[0];
        if recovery_id >= 4 {
            return false;
        }
        match recover_public_key(digest, signature, recovery_id) {
            Some(key) => public_key_is_valid(key.as_slice(), KeyFormat::Full) && ecdsa_verify(
                digest,
                signature,
                key.as_slice(),
                KeyFormat::Full,
            ),
            None => false,
        }
    } else {
        false
    }
}

/// Checks a compact signature over a message against a key field: the
/// signature must hold for the "personal sign" digest of the message.
pub fn verify_message(message: &[u8], signature: &[u8], key_field: &[u8]) -> (ok: bool)
    ensures
        ok == signature_accepted(personal_digest(message@), signature@, key_field@),
{
    let digest = hash_message(message);
    let mut verification = Verification {
        message: Vec::new(),
        signature: Vec::new(),
        public_key: Vec::new(),
    };
    crate::bytes::append_bytes(&mut verification.message, digest.as_slice());
    crate::bytes::append_bytes(&mut verification.signature, signature);
    crate::bytes::append_bytes(&mut verification.public_key, key_field);
    verify(&verification)
}

/// A signature of any length but 64, and a digest of any length but 32, is refused.
pub proof fn law_wrong_lengths_refused(digest: Seq<u8>, signature: Seq<u8>, key_field: Seq<u8>)
    requires
        digest.len() != 32 || signature.len() != 64,
    ensures
        !signature_accepted(digest, signature, key_field),
{
}

/// A key field of any length but 65, 64, 33 or 1 is refused.
pub proof fn law_unknown_key_length_refused(
    digest: Seq<u8>,
    signature: Seq<u8>,
    key_field: Seq<u8>,
)
    requires
        key_field.len() != 65,
        key_field.len() != 64,
        key_field.len() != 33,
        key_field.len() != 1,
    ensures
        !signature_accepted(digest, signature, key_field),
{
}

/// A recovery id of 4 or more is refused.
pub proof fn law_recovery_id_out_of_range_refused(
    digest: Seq<u8>,
    signature: Seq<u8>,
    key_field: Seq<u8>,
)
    requires
        key_field.len() == 1,
        key_field[0] >= 4,
    ensures
        !signature_accepted(digest, signature, key_field),
{
}

/// With a recovery id below 4 the signature is accepted exactly when a key
/// is recovered and the signature verifies under that key.
pub proof fn law_recovery_id_recovers(digest: Seq<u8>, signature: Seq<u8>, key_field: Seq<u8>)
    requires
        digest.len() == 32,
        signature.len() == 64,
        signature_parses(signature),
        key_field.len() == 1,
        key_field[0] < 4,
    ensures
        signature_accepted(digest, signature, key_field) <==> (recovered_public_key(
            digest,
            signature,
            key_field[0],
        ) matches Some(key) && public_key_parses(key, KeyFormat::Full) && ecdsa_accepts(
            digest,
            signature,
            key,
            KeyFormat::Full,
        )),
{
}

/// What the verifier answers to a message, once the message's one-time
/// identifier was found fresh: the payload where the signature text is
/// base64 and what it decodes to, all of it, is a signature that holds for
/// the message under `key`. A decoded signature of any length but 64 is
/// refused.
pub open spec fn signature_verdict(msgin: MsgInView, payload: PayloadView, key: Seq<u8>) -> Result<
    PayloadView,
    VerifyError,
> {
    let text = encode_utf8(msgin.sig);
    if text.len() + 3 > usize::MAX {
        Err(VerifyError::SigDecoErr)
    } else {
        match base64_decoded(text) {
            None => Err(VerifyError::SigDecoErr),
            Some(decoded) => if signature_accepted(
                personal_digest(encode_utf8(msgin.msg)),
                decoded,
                key,
            ) {
                Ok(payload)
            } else {
                Err(VerifyError::VerifyErr)
            },
        }
    }
}

/// What the verifier answers to a message: a payload that could not be read
/// is a decode error; an identifier consumed before is a replay; otherwise
/// the verdict on the signature.
pub open spec fn msg_in_verdict(
    consumed: Set<Seq<char>>,
    msgin: MsgInView,
    payload: Option<PayloadView>,
    key: Seq<u8>,
) -> Result<PayloadView, VerifyError> {
    match payload {
        None => Err(VerifyError::MsgDecodeErr),
        Some(p) => if consumed.contains(p.uuid) {
            Err(VerifyError::ReplayErr)
        } else {
            signature_verdict(msgin, p, key)
        },
    }
}

/// The identifiers consumed after a message: the payload's identifier is
/// consumed as soon as the payload could be read, whatever the signature.
pub open spec fn msg_in_consumed(consumed: Set<Seq<char>>, payload: Option<PayloadView>) -> Set<
    Seq<char>,
> {
    match payload {
        None => consumed,
        Some(p) => consumed.insert(p.uuid),
    }
}

/// The view of an answer of the verifier.
pub open spec fn verdict_view(verdict: Result<Payload, VerifyError>) -> Result<
    PayloadView,
    VerifyError,
> {
    match verdict {
        Ok(p) => Ok(p@),
        Err(e) => Err(e),
    }
}

/// The view of a payload that may be missing.
pub open spec fn payload_view(payload: Option<Payload>) -> Option<PayloadView> {
    match payload {
        Some(p) => Some(p@),
        None => None,
    }
}

/// Checks the signature of a message whose identifier was found fresh.
pub fn check_signature(msgin: &MsgIn, payload: Payload, key: &[u8]) -> (verdict: Result<
    Payload,
    VerifyError,
>)
    ensures
        verdict_view(verdict) == signature_verdict(msgin@, payload@, key@),
{
    let digest = hash_keccak256(msgin.msg.as_str());
    let text = msgin.sig.as_str().as_bytes();
    if text.len() > usize::MAX - 3 {
        return Err(VerifyError::SigDecoErr);
    }
    let decoded = match base64_decode(text) {
        Some(bytes) => bytes,
        None => {
            return Err(VerifyError::SigDecoErr);
        },
    };
    let mut verification = Verification {
        message: Vec::new(),
        signature: decoded,
        public_key: Vec::new(),
    };
    crate::bytes::append_bytes(&mut verification.message, digest.as_slice());
    crate::bytes::append_bytes(&mut verification.public_key, key);
    if verify(&verification) {
        Ok(payload)
    } else {
        Err(VerifyError::VerifyErr)
    }
}

/// Answers a message under a given signer key.
///
/// `payload` is what the message text was read as, `None` where it could
/// not be read. The payload's identifier is consumed before the signature
/// is looked at, so a message is answered once, whatever the answer.
pub fn msg_in_with_key(state: &mut State, msgin: &MsgIn, payload: Option<Payload>, key: &[u8]) -> (verdict:
    Result<Payload, VerifyError>)
    requires
        old(state).wf(),
    ensures
        final(state).wf(),
        final(state)@ == msg_in_consumed(old(state)@, payload_view(payload)),
        verdict_view(verdict) == msg_in_verdict(old(state)@, msgin@, payload_view(payload), key@),
{
    let payload = match payload {
        Some(p) => p,
        None => {
            return Err(VerifyError::MsgDecodeErr);
        },
    };
    if !state.uuids.check_and_consume(payload.uuid.as_str()) {
        assert(state@ =~= old(state)@);
        return Err(VerifyError::ReplayErr);
    }
    check_signature(msgin, payload, key)
}

/// Answers a message under the trusted signer's key.
pub fn msg_in(state: &mut State, msgin: &MsgIn, payload: Option<Payload>) -> (verdict: Result<
    Payload,
    VerifyError,
>)
    requires
        old(state).wf(),
    ensures
        final(state).wf(),
        final(state)@ == msg_in_consumed(old(state)@, payload_view(payload)),
        verdict_view(verdict) == msg_in_verdict(
            old(state)@,
            msgin@,
            payload_view(payload),
            TRUSTED_SIGNER_KEY@,
        ),
{
    msg_in_with_key(state, msgin, payload, TRUSTED_SIGNER_KEY.as_slice())
}

/// A message whose identifier was consumed is refused as a replay, and a
/// message that was answered has its identifier consumed: the same message
/// is never answered twice with a payload.
pub proof fn law_no_replay(
    consumed: Set<Seq<char>>,
    msgin: MsgInView,
    payload: PayloadView,
    key: Seq<u8>,
)
    ensures
        msg_in_verdict(
            msg_in_consumed(consumed, Some(payload)),
            msgin,
            Some(payload),
            key,
        ) == Err::<PayloadView, VerifyError>(VerifyError::ReplayErr),
{
}

/// Forgets every consumed identifier.
pub fn do_clear(state: &mut State)
    ensures
        final(state)@ == Set::<Seq<char>>::empty(),
        final(state).wf(),
{
    state.uuids.clear();
}

/// Takes the state to be saved, and leaves an empty state behind.
pub fn pre_upgrade(state: &mut State) -> (stable: StableState)
    ensures
        stable@.to_set() == old(state)@,
        old(state).wf() ==> keys_sorted::<String>(stable@),
        final(state)@ == Set::<Seq<char>>::empty(),
        final(state).wf(),
{
    StableState { uuids: state.uuids.take() }
}

/// Replaces the state with a saved one: what was consumed before is
/// forgotten, and exactly the saved identifiers count as consumed.
pub fn post_upgrade(state: &mut State, stable: StableState)
    ensures
        final(state)@ == stable@.to_set(),
        final(state).wf(),
{
    do_clear(state);
    state.uuids = ReplayGuard::from_vec(stable.uuids);
}

} // verus!
