//! What passes between the identity record and the message verifier.

use crate::text::duplicate_bytes;
use vstd::prelude::*;

verus! {

/// Why a binding was refused.
#[derive(Clone, Copy, Debug, PartialEq, Eq, Structural)]
pub enum VerifyError {
    /// The signature text is not base64.
    SigDecoErr,
    /// The signature does not hold, or the caller is not the one expected.
    VerifyErr,
    /// The message text is not a payload.
    MsgDecodeErr,
    /// The pending ticket is not the text of a principal.
    IcPrincipalErr,
    /// The registry, or the ledger, holds the identity already.
    IDExist,
    /// The registry does not know this identity record.
    XidNotExist,
    /// The registry refused for another reason, or could not be reached.
    XidCNoNameErr,
    /// The message's one-time identifier was used before.
    ReplayErr,
}

/// A digest, a compact signature, and a key field whose length says how to read it.
#[derive(Clone, Debug)]
pub struct Verification {
    pub message: Vec<u8>,
    pub signature: Vec<u8>,
    pub public_key: Vec<u8>,
}

/// The bytes of a [`Verification`].
pub struct VerificationView {
    pub message: Seq<u8>,
    pub signature: Seq<u8>,
    pub public_key: Seq<u8>,
}

impl View for Verification {
    type V = VerificationView;

    open spec fn view(&self) -> VerificationView {
        VerificationView {
            message: self.message@,
            signature: self.signature@,
            public_key: self.public_key@,
        }
    }
}

impl Verification {
    /// A copy with the same bytes.
    pub fn duplicate(&self) -> (copy: Verification)
        ensures
            copy@ == self@,
    {
        Verification {
            message: duplicate_bytes(&self.message),
            signature: duplicate_bytes(&self.signature),
            public_key: duplicate_bytes(&self.public_key),
        }
    }
}

/// What a signed message says: who binds which identity, and the one-time
/// identifier of the message.
#[derive(Clone, Debug)]
pub struct Payload {
    pub action: String,
    pub created_at: String,
    pub identity: String,
    pub persona: String,
    pub platform: String,
    pub uuid: String,
}

/// The texts of a [`Payload`].
pub struct PayloadView {
    pub action: Seq<char>,
    pub created_at: Seq<char>,
    pub identity: Seq<char>,
    pub persona: Seq<char>,
    pub platform: Seq<char>,
    pub uuid: Seq<char>,
}

impl PayloadView {
    /// The payload whose texts are all empty.
    pub open spec fn empty() -> PayloadView {
        PayloadView {
            action: Seq::empty(),
            created_at: Seq::empty(),
            identity: Seq::empty(),
            persona: Seq::empty(),
            platform: Seq::empty(),
            uuid: Seq::empty(),
        }
    }
}

impl View for Payload {
    type V = PayloadView;

    open spec fn view(&self) -> PayloadView {
        PayloadView {
            action: self.action@,
            created_at: self.created_at@,
            identity: self.identity@,
            persona: self.persona@,
            platform: self.platform@,
            uuid: self.uuid@,
        }
    }
}

impl Payload {
    /// A copy with the same texts.
    pub fn duplicate(&self) -> (copy: Payload)
        ensures
            copy@ == self@,
    {
        Payload {
            action: self.action.clone(),
            created_at: self.created_at.clone(),
            identity: self.identity.clone(),
            persona: self.persona.clone(),
            platform: self.platform.clone(),
            uuid: self.uuid.clone(),
        }
    }
}

impl Default for Payload {
    fn default() -> (payload: Payload)
        ensures
            payload@ == PayloadView::empty(),
    {
        Payload {
            action: String::new(),
            created_at: String::new(),
            identity: String::new(),
            persona: String::new(),
            platform: String::new(),
            uuid: String::new(),
        }
    }
}

/// A message as it was signed, and its signature in base64.
#[derive(Clone, Debug)]
pub struct MsgIn {
    pub msg: String,
    pub sig: String,
}

/// The texts of a [`MsgIn`].
pub struct MsgInView {
    pub msg: Seq<char>,
    pub sig: Seq<char>,
}

impl View for MsgIn {
    type V = MsgInView;

    open spec fn view(&self) -> MsgInView {
        MsgInView { msg: self.msg@, sig: self.sig@ }
    }
}

impl MsgIn {
    /// A copy with the same texts.
    pub fn duplicate(&self) -> (copy: MsgIn)
        ensures
            copy@ == self@,
    {
        MsgIn { msg: self.msg.clone(), sig: self.sig.clone() }
    }
}

} // verus!
