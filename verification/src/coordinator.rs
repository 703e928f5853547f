//! The binding protocols: what the record decides between the calls that go out.
//!
//! A binding runs in steps. Between two steps stands a call to the message
//! verifier or to the registry, which the caller of this module makes; it
//! hands the answer to the next step. An answer is `None` where the call
//! could not be completed. The record changes only in a step that follows
//! the registry's acceptance (binding), or before the registry is asked at
//! all (unbinding, which is not undone where the registry then refuses).

use crate::decimal::{decimal_string, decimal_text};
use crate::encoding::{principal_from_text, principal_of_text};
use crate::types::{
    IdView, SimpleId, State, StateView, XidCenterError, XidError, XidResponse, ID,
};
use crate::verify::{Payload, PayloadView, VerifyError};
use vstd::prelude::*;
use vstd::string::*;

verus! {

/// The platform under which a principal of the host is bound.
pub const HOST_PLATFORM: &'static str = "hostprincipal";

/// What the caller is told where the registry refuses to record an identity.
pub open spec fn put_refusal(e: XidCenterError) -> VerifyError {
    match e {
        XidCenterError::IDExist => VerifyError::IDExist,
        XidCenterError::XidNotExist => VerifyError::XidNotExist,
        _ => VerifyError::XidCNoNameErr,
    }
}

/// What the caller is told where the registry refuses to delete an identity.
pub open spec fn delete_refusal(e: XidCenterError) -> XidError {
    match e {
        XidCenterError::IDNotExist => XidError::IDNotExist,
        XidCenterError::XidNotExist => XidError::XidNotExist,
        _ => XidError::XidCNoNameErr,
    }
}

/// The identity that a verified payload binds, bound at `now`.
pub open spec fn attested_identity(payload: PayloadView, now: u64) -> IdView {
    IdView {
        platform: payload.platform,
        identity: payload.identity,
        bind_time: decimal_text(now as nat),
    }
}

/// What follows the verifier's answer: an identity to record, or a refusal.
pub open spec fn after_verification(
    answer: Option<Result<PayloadView, VerifyError>>,
    now: u64,
) -> Result<IdView, VerifyError> {
    match answer {
        None => Err(VerifyError::XidCNoNameErr),
        Some(Err(e)) => Err(e),
        Some(Ok(payload)) => Ok(attested_identity(payload, now)),
    }
}

/// The record after the registry answered a request to record `id`.
pub open spec fn after_put(state: StateView, id: IdView, answer: Option<Result<(), XidCenterError>>) -> StateView {
    match answer {
        Some(Ok(())) => StateView { ledger: state.ledger.bind(id), ..state },
        _ => state,
    }
}

/// What the caller is told after the registry answered a request to record `id`.
pub open spec fn put_outcome(state: StateView, id: IdView, answer: Option<Result<(), XidCenterError>>) -> Result<
    XidResponse,
    VerifyError,
> {
    match answer {
        None => Err(VerifyError::XidCNoNameErr),
        Some(Err(e)) => Err(put_refusal(e)),
        Some(Ok(())) => if state.ledger.contains(id) {
            Err(VerifyError::IDExist)
        } else {
            Ok(XidResponse::VerifyOk)
        },
    }
}

/// What the caller is told after the registry answered a request to delete.
pub open spec fn delete_outcome(answer: Option<Result<(), XidCenterError>>) -> Result<
    XidResponse,
    XidError,
> {
    match answer {
        None => Err(XidError::XidCNoNameErr),
        Some(Err(e)) => Err(delete_refusal(e)),
        Some(Ok(())) => Ok(XidResponse::ChangeIdOk),
    }
}

/// The identity that a confirmed ticket binds, bound at `now`.
pub open spec fn host_identity(ticket: Seq<char>, now: u64) -> IdView {
    IdView { platform: HOST_PLATFORM@, identity: ticket, bind_time: decimal_text(now as nat) }
}

/// What follows a confirmation by `caller`, the text of the principal that
/// makes the call: the ticket must be the text of a principal, and it must
/// be the caller's text, letter for letter.
pub open spec fn after_confirmation(ticket: Seq<char>, caller: Seq<char>, now: u64) -> Result<
    IdView,
    VerifyError,
> {
    if principal_of_text(ticket) is None {
        Err(VerifyError::IcPrincipalErr)
    } else if ticket == caller {
        Ok(host_identity(ticket, now))
    } else {
        Err(VerifyError::VerifyErr)
    }
}

/// The view of an answer of the verifier.
pub open spec fn verifier_answer_view(answer: Option<Result<Payload, VerifyError>>) -> Option<
    Result<PayloadView, VerifyError>,
> {
    match answer {
        None => None,
        Some(Err(e)) => Some(Err(e)),
        Some(Ok(p)) => Some(Ok(p@)),
    }
}

/// The view of a step that yields an identity to record.
pub open spec fn step_view(step: Result<ID, VerifyError>) -> Result<IdView, VerifyError> {
    match step {
        Ok(id) => Ok(id@),
        Err(e) => Err(e),
    }
}

/// Tells whether `caller`, the text of a principal, is the owner.
pub fn is_authorized(state: &State, caller: &str) -> (allowed: Result<(), String>)
    ensures
        allowed is Ok <==> state@.pub_key == caller@,
        allowed matches Err(reason) ==> reason@ == "Caller is not authorized"@,
{
    if crate::bytes::bytes_eq(state.pub_key.as_str().as_bytes(), caller.as_bytes()) {
        proof {
            crate::text::lemma_encode_injective(state@.pub_key, caller@);
        }
        Ok(())
    } else {
        proof {
            crate::text::lemma_encode_injective(state@.pub_key, caller@);
        }
        Err("Caller is not authorized".to_owned())
    }
}

/// Tells whether `caller`, the text of a principal, is the one the pending
/// ticket names.
pub fn is_ic_authorized(state: &State, caller: &str) -> (allowed: Result<(), String>)
    ensures
        allowed is Ok <==> state@.ic_verify == caller@,
        allowed matches Err(reason) ==> reason@ == "Caller is not authorized"@,
{
    if crate::bytes::bytes_eq(state.ic_verify.as_str().as_bytes(), caller.as_bytes()) {
        proof {
            crate::text::lemma_encode_injective(state@.ic_verify, caller@);
        }
        Ok(())
    } else {
        proof {
            crate::text::lemma_encode_injective(state@.ic_verify, caller@);
        }
        Err("Caller is not authorized".to_owned())
    }
}

/// Makes a bound identity the main one.
pub fn change_main_id(state: &mut State, arg: ID) -> (done: Result<XidResponse, XidError>)
    requires
        old(state).wf(),
    ensures
        final(state).wf(),
        final(state)@ == (StateView { ledger: old(state)@.ledger.change_main(arg@), ..old(state)@ }),
        done == if old(state)@.ledger.contains(arg@) {
            Ok::<XidResponse, XidError>(XidResponse::ChangeIdOk)
        } else {
            Err::<XidResponse, XidError>(XidError::IDNotExist)
        },
        old(state)@.ledger.main_is_bound() ==> final(state)@.ledger.main_is_bound(),
{
    match state.ledger.change_main(arg) {
        Ok(()) => Ok(XidResponse::ChangeIdOk),
        Err(_) => Err(XidError::IDNotExist),
    }
}

/// First step of unbinding: takes the identity out of the ledger and says
/// what the registry is to delete. An identity that is not bound is
/// refused, and the registry is not asked.
pub fn unbound_id(state: &mut State, arg: &ID) -> (step: Result<SimpleId, XidError>)
    requires
        old(state).wf(),
    ensures
        final(state).wf(),
        final(state)@ == (StateView { ledger: old(state)@.ledger.unbind(arg@), ..old(state)@ }),
        match step {
            Ok(request) => old(state)@.ledger.contains(arg@) && request@ == arg@.simple(),
            Err(e) => !old(state)@.ledger.contains(arg@) && e == XidError::IDNotExist,
        },
        old(state)@.ledger.main_is_bound() ==> final(state)@.ledger.main_is_bound(),
{
    match state.ledger.unbind(arg) {
        Ok(()) => Ok(arg.simple()),
        Err(_) => Err(XidError::IDNotExist),
    }
}

/// Last step of unbinding: what the caller is told once the registry
/// answered. The ledger is not touched: a refusal leaves the identity
/// unbound here though the registry still holds it.
pub fn unbound_id_deleted(answer: Option<Result<(), XidCenterError>>) -> (done: Result<
    XidResponse,
    XidError,
>)
    ensures
        done == delete_outcome(answer),
{
    match answer {
        None => Err(XidError::XidCNoNameErr),
        Some(Ok(())) => Ok(XidResponse::ChangeIdOk),
        Some(Err(XidCenterError::IDNotExist)) => Err(XidError::IDNotExist),
        Some(Err(XidCenterError::XidNotExist)) => Err(XidError::XidNotExist),
        Some(Err(_)) => Err(XidError::XidCNoNameErr),
    }
}

/// Records who is expected to confirm a binding, in place of any earlier
/// ticket. The text is taken as it is.
pub fn verify_ic_pre(state: &mut State, arg: String) -> (stored: bool)
    ensures
        stored,
        final(state)@ == (StateView { ic_verify: arg@, ..old(state)@ }),
{
    state.ic_verify = arg;
    true
}

/// First step of a confirmation: uses up the pending ticket and checks it
/// against `caller`, the text of the principal that makes the call.
///
/// The ticket is cleared whatever comes of it. Where it is the text of a
/// principal and the caller's text, the identity to record is handed back.
pub fn verify_ic_post(state: &mut State, caller: &str, now: u64) -> (step: Result<
    ID,
    VerifyError,
>)
    ensures
        final(state)@ == (StateView { ic_verify: Seq::empty(), ..old(state)@ }),
        step_view(step) == after_confirmation(old(state)@.ic_verify, caller@, now),
{
    let mut ticket = String::new();
    core::mem::swap(&mut state.ic_verify, &mut ticket);
    match principal_from_text(ticket.as_str()) {
        None => Err(VerifyError::IcPrincipalErr),
        Some(_) => {
            proof {
                crate::text::lemma_encode_injective(ticket@, caller@);
            }
            if crate::bytes::bytes_eq(ticket.as_str().as_bytes(), caller.as_bytes()) {
                Ok(
                    ID {
                        platform: HOST_PLATFORM.to_owned(),
                        identity: ticket,
                        bind_time: decimal_string(now),
                    },
                )
            } else {
                Err(VerifyError::VerifyErr)
            }
        },
    }
}

/// Second step of an attested binding: what follows the verifier's answer.
/// A payload that was verified names the identity to record, bound at `now`.
pub fn verify_id(answer: Option<Result<Payload, VerifyError>>, now: u64) -> (step: Result<
    ID,
    VerifyError,
>)
    ensures
        step_view(step) == after_verification(verifier_answer_view(answer), now),
{
    match answer {
        None => Err(VerifyError::XidCNoNameErr),
        Some(Err(e)) => Err(e),
        Some(Ok(payload)) => Ok(
            ID {
                platform: payload.platform,
                identity: payload.identity,
                bind_time: decimal_string(now),
            },
        ),
    }
}

/// Last step of a binding of either kind: binds `id` where the registry
/// recorded it, and not otherwise.
pub fn bind_registered(state: &mut State, id: ID, answer: Option<Result<(), XidCenterError>>) -> (done:
    Result<XidResponse, VerifyError>)
    requires
        old(state).wf(),
    ensures
        final(state).wf(),
        final(state)@ == after_put(old(state)@, id@, answer),
        done == put_outcome(old(state)@, id@, answer),
        old(state)@.ledger.main_is_bound() ==> final(state)@.ledger.main_is_bound(),
{
    match answer {
        None => Err(VerifyError::XidCNoNameErr),
        Some(Err(XidCenterError::IDExist)) => Err(VerifyError::IDExist),
        Some(Err(XidCenterError::XidNotExist)) => Err(VerifyError::XidNotExist),
        Some(Err(_)) => Err(VerifyError::XidCNoNameErr),
        Some(Ok(())) => match state.ledger.bind(id) {
            Ok(()) => Ok(XidResponse::VerifyOk),
            Err(_) => Err(VerifyError::IDExist),
        },
    }
}

/// The record changes only where the registry accepted: after any other
/// answer it is what it was.
pub proof fn law_bind_after_acceptance(
    state: StateView,
    id: IdView,
    answer: Option<Result<(), XidCenterError>>,
)
    requires
        !(answer matches Some(Ok(_))),
    ensures
        after_put(state, id, answer) == state,
        put_outcome(state, id, answer) is Err,
{
}

/// Where the registry accepted an identity that was not bound, the ledger
/// holds it afterwards, and it is the main identity where there was none.
pub proof fn law_accepted_binding_lands(state: StateView, id: IdView)
    requires
        state.wf(),
        !state.ledger.contains(id),
    ensures
        put_outcome(state, id, Some(Ok(()))) == Ok::<XidResponse, VerifyError>(
            XidResponse::VerifyOk,
        ),
        after_put(state, id, Some(Ok(()))).ledger.contains(id),
        state.ledger.main_id.is_unset() ==> after_put(state, id, Some(Ok(()))).ledger.main_id == id,
{
    crate::ledger::law_bind_twice(state.ledger, id);
}

/// A confirmation succeeds only where the ticket is the caller's text and
/// the text of a principal. A ticket that is not the caller's text fails,
/// with `IcPrincipalErr` where it is no principal's text and with
/// `VerifyErr` otherwise.
pub proof fn law_confirmation_needs_the_named_caller(ticket: Seq<char>, caller: Seq<char>, now: u64)
    ensures
        after_confirmation(ticket, caller, now) is Ok <==> (ticket == caller && principal_of_text(
            ticket,
        ) is Some),
        ticket != caller ==> after_confirmation(ticket, caller, now) == Err::<IdView, VerifyError>(
            if principal_of_text(ticket) is None {
                VerifyError::IcPrincipalErr
            } else {
                VerifyError::VerifyErr
            },
        ),
{
}

/// A confirmation that fails changes nothing but the ticket, which is
/// cleared: nothing is handed on to record, so the ledger stays as it was.
pub proof fn law_failed_confirmation_binds_nothing(
    state: StateView,
    caller: Seq<char>,
    now: u64,
)
    requires
        state.ic_verify != caller,
    ensures
        after_confirmation(state.ic_verify, caller, now) is Err,
        (StateView { ic_verify: Seq::empty(), ..state }).ledger == state.ledger,
{
}

} // verus!
