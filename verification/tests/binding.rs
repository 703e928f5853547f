use xid::attest::{
    check_signature, do_clear, msg_in, msg_in_with_key, post_upgrade, pre_upgrade, StableState,
    State, TRUSTED_SIGNER_KEY,
};
use xid::coordinator::{
    bind_registered, change_main_id, is_authorized, is_ic_authorized, unbound_id,
    unbound_id_deleted, verify_ic_post, verify_ic_pre, verify_id, HOST_PLATFORM,
};
use xid::digest::hash_keccak256;
use xid::profile::init;
use xid::types::{XidCenterError, XidError, XidResponse, ID};
use xid::verify::{MsgIn, Payload, VerifyError};

const PRINCIPAL_TEXT: &str = "2chl6-4hpzw-vqaaa-aaaaa-c";
const PRINCIPAL_BYTES: [u8; 9] = [0xef, 0xcd, 0xab, 0, 0, 0, 0, 0, 1];

fn secret() -> libsecp256k1::SecretKey {
    libsecp256k1::SecretKey::parse(&[0x42; 32]).unwrap()
}

fn signer_key() -> [u8; 33] {
    libsecp256k1::PublicKey::from_secret_key(&secret()).serialize_compressed()
}

fn payload(platform: &str, identity: &str, uuid: &str) -> Payload {
    Payload {
        action: "bind".to_string(),
        created_at: "2022-06-01".to_string(),
        identity: identity.to_string(),
        persona: String::new(),
        platform: platform.to_string(),
        uuid: uuid.to_string(),
    }
}

fn message_text(p: &Payload) -> String {
    format!(
        "{{\"action\":\"{}\",\"created_at\":\"{}\",\"identity\":\"{}\",\"persona\":\"{}\",\"platform\":\"{}\",\"uuid\":\"{}\"}}",
        p.action, p.created_at, p.identity, p.persona, p.platform, p.uuid
    )
}

fn signature_bytes(text: &str) -> Vec<u8> {
    let digest = hash_keccak256(text);
    let message = libsecp256k1::Message::parse(&digest);
    let (signature, _) = libsecp256k1::sign(&message, &secret());
    signature.serialize().to_vec()
}

fn envelope(p: &Payload) -> MsgIn {
    let msg = message_text(p);
    let sig = base64::encode(signature_bytes(&msg));
    MsgIn { msg, sig }
}

fn id(platform: &str, identity: &str, bind_time: &str) -> ID {
    ID {
        platform: platform.to_string(),
        identity: identity.to_string(),
        bind_time: bind_time.to_string(),
    }
}

fn error_of(verdict: Result<Payload, VerifyError>) -> VerifyError {
    match verdict {
        Ok(p) => panic!("a payload came back: {:?}", p),
        Err(e) => e,
    }
}

fn step_error(step: Result<ID, VerifyError>) -> VerifyError {
    match step {
        Ok(id) => panic!("an identity came back: {:?}", id),
        Err(e) => e,
    }
}

#[test]
fn attested_message_binds_after_the_registry_accepts() {
    let mut verifier = State::new();
    let mut record = xid::types::State::new();
    let p = payload("twitter", "alice", "uuid-1");
    let msgin = envelope(&p);

    let verdict = msg_in_with_key(&mut verifier, &msgin, Some(p.duplicate()), &signer_key());
    let verified = verdict.expect("the signed message is accepted");
    assert_eq!(verified.identity, "alice");
    assert_eq!(verified.platform, "twitter");
    assert_eq!(verified.uuid, "uuid-1");

    let to_record = verify_id(Some(Ok(verified)), 1_654_041_600_000_000_000).unwrap();
    assert_eq!(to_record.platform, "twitter");
    assert_eq!(to_record.identity, "alice");
    assert_eq!(to_record.bind_time, "1654041600000000000");
    let request = to_record.simple();
    assert_eq!((request.platform.as_str(), request.identity.as_str()), ("twitter", "alice"));

    assert_eq!(record.ledger.members().len(), 0);
    let done = bind_registered(&mut record, to_record, Some(Ok(())));
    assert_eq!(done, Ok(XidResponse::VerifyOk));
    assert!(record.ledger.contains(&id("twitter", "alice", "")));
    let main = record.ledger.main();
    assert_eq!(main.platform, "twitter");
    assert_eq!(main.identity, "alice");
    assert_eq!(main.bind_time, "1654041600000000000");
}

#[test]
fn resubmitted_message_is_a_replay_and_asks_no_registry() {
    let mut verifier = State::new();
    let p = payload("twitter", "alice", "uuid-1");
    let msgin = envelope(&p);
    assert!(msg_in_with_key(&mut verifier, &msgin, Some(p.duplicate()), &signer_key()).is_ok());
    let second = msg_in_with_key(&mut verifier, &msgin, Some(p.duplicate()), &signer_key());
    assert_eq!(error_of(second), VerifyError::ReplayErr);
    assert_eq!(
        step_error(verify_id(Some(Err(VerifyError::ReplayErr)), 5)),
        VerifyError::ReplayErr
    );
    let third = msg_in_with_key(&mut verifier, &msgin, Some(p), &signer_key());
    assert_eq!(error_of(third), VerifyError::ReplayErr);
}

#[test]
fn second_binding_does_not_replace_main() {
    let mut verifier = State::new();
    let mut record = xid::types::State::new();
    for (n, (platform, identity)) in [("twitter", "alice"), ("github", "al")].iter().enumerate() {
        let p = payload(platform, identity, &format!("uuid-{}", n));
        let msgin = envelope(&p);
        let verdict = msg_in_with_key(&mut verifier, &msgin, Some(p), &signer_key());
        let to_record = verify_id(Some(verdict), 100 + n as u64).unwrap();
        assert_eq!(bind_registered(&mut record, to_record, Some(Ok(()))), Ok(XidResponse::VerifyOk));
    }
    assert_eq!(record.ledger.members().len(), 2);
    assert_eq!(record.ledger.main().platform, "twitter");
    assert_eq!(record.ledger.main().bind_time, "100");
}

#[test]
fn unreadable_message_is_a_decode_error_and_consumes_nothing() {
    let mut verifier = State::new();
    let p = payload("twitter", "alice", "uuid-1");
    let mut msgin = envelope(&p);
    msgin.msg = "not json".to_string();
    let verdict = msg_in_with_key(&mut verifier, &msgin, None, &signer_key());
    assert_eq!(error_of(verdict), VerifyError::MsgDecodeErr);
    assert_eq!(verifier.uuids.len(), 0);
}

#[test]
fn signature_that_is_not_base64_is_a_decode_error_after_the_identifier_was_consumed() {
    let mut verifier = State::new();
    let p = payload("twitter", "alice", "uuid-1");
    let mut msgin = envelope(&p);
    msgin.sig = "!!! not base64 !!!".to_string();
    let verdict = msg_in_with_key(&mut verifier, &msgin, Some(p.duplicate()), &signer_key());
    assert_eq!(error_of(verdict), VerifyError::SigDecoErr);
    assert!(verifier.uuids.contains("uuid-1"));
    let good = envelope(&p);
    let again = msg_in_with_key(&mut verifier, &good, Some(p), &signer_key());
    assert_eq!(error_of(again), VerifyError::ReplayErr);
}

#[test]
fn altered_message_fails_verification() {
    let mut verifier = State::new();
    let p = payload("twitter", "alice", "uuid-1");
    let mut msgin = envelope(&p);
    msgin.msg = msgin.msg.replace("alice", "mallory");
    let forged = payload("twitter", "mallory", "uuid-1");
    let verdict = msg_in_with_key(&mut verifier, &msgin, Some(forged), &signer_key());
    assert_eq!(error_of(verdict), VerifyError::VerifyErr);
}

#[test]
fn message_of_another_signer_fails_under_the_trusted_key() {
    let mut verifier = State::new();
    let p = payload("twitter", "alice", "uuid-1");
    let msgin = envelope(&p);
    assert_ne!(signer_key(), TRUSTED_SIGNER_KEY);
    let verdict = msg_in(&mut verifier, &msgin, Some(p.duplicate()));
    assert_eq!(error_of(verdict), VerifyError::VerifyErr);
    let unread = msg_in(&mut verifier, &msgin, None);
    assert_eq!(error_of(unread), VerifyError::MsgDecodeErr);
    let again = msg_in(&mut verifier, &msgin, Some(p));
    assert_eq!(error_of(again), VerifyError::ReplayErr);
}

#[test]
fn decoded_signature_of_any_length_but_64_is_refused() {
    let p = payload("twitter", "alice", "uuid-1");
    let msg = message_text(&p);
    let bytes = signature_bytes(&msg);
    assert_eq!(bytes.len(), 64);
    let exact = MsgIn { msg: msg.clone(), sig: base64::encode(&bytes) };
    assert!(check_signature(&exact, p.duplicate(), &signer_key()).is_ok());
    for extra in [0u8, 27, 28] {
        let mut long = bytes.clone();
        long.push(extra);
        let envelope = MsgIn { msg: msg.clone(), sig: base64::encode(&long) };
        assert_eq!(
            error_of(check_signature(&envelope, p.duplicate(), &signer_key())),
            VerifyError::VerifyErr
        );
    }
    let short = MsgIn { msg: msg.clone(), sig: base64::encode(&bytes[..63]) };
    assert_eq!(
        error_of(check_signature(&short, p.duplicate(), &signer_key())),
        VerifyError::VerifyErr
    );
    let empty = MsgIn { msg, sig: String::new() };
    assert_eq!(error_of(check_signature(&empty, p, &signer_key())), VerifyError::VerifyErr);
}

#[test]
fn message_with_a_65_byte_signature_is_refused_and_its_identifier_consumed() {
    let mut verifier = State::new();
    let p = payload("twitter", "alice", "uuid-1");
    let msg = message_text(&p);
    let mut bytes = signature_bytes(&msg);
    bytes.push(27);
    let msgin = MsgIn { msg, sig: base64::encode(&bytes) };
    let verdict = msg_in_with_key(&mut verifier, &msgin, Some(p), &signer_key());
    assert_eq!(error_of(verdict), VerifyError::VerifyErr);
    assert!(verifier.uuids.contains("uuid-1"));
}

#[test]
fn verifier_errors_and_transport_failure_ask_no_registry() {
    for e in [
        VerifyError::SigDecoErr,
        VerifyError::VerifyErr,
        VerifyError::MsgDecodeErr,
        VerifyError::ReplayErr,
    ] {
        assert_eq!(step_error(verify_id(Some(Err(e)), 1)), e);
    }
    assert_eq!(step_error(verify_id(None, 1)), VerifyError::XidCNoNameErr);
}

#[test]
fn registry_refusal_leaves_the_ledger_as_it_was() {
    let cases = [
        (Some(Err(XidCenterError::IDExist)), VerifyError::IDExist),
        (Some(Err(XidCenterError::XidNotExist)), VerifyError::XidNotExist),
        (Some(Err(XidCenterError::Invalid_Operation)), VerifyError::XidCNoNameErr),
        (Some(Err(XidCenterError::Invalid_Platform)), VerifyError::XidCNoNameErr),
        (Some(Err(XidCenterError::NotXidOwner)), VerifyError::XidCNoNameErr),
        (Some(Err(XidCenterError::IDNotExist)), VerifyError::XidCNoNameErr),
        (None, VerifyError::XidCNoNameErr),
    ];
    for (answer, expected) in cases {
        let mut record = xid::types::State::new();
        let done = bind_registered(&mut record, id("twitter", "alice", "1"), answer);
        assert_eq!(done, Err(expected));
        assert!(record.ledger.members().is_empty());
        assert!(record.ledger.main().is_unset());
    }
}

#[test]
fn accepted_identity_that_is_bound_already_is_reported_as_existing() {
    let mut record = xid::types::State::new();
    assert_eq!(
        bind_registered(&mut record, id("twitter", "alice", "1"), Some(Ok(()))),
        Ok(XidResponse::VerifyOk)
    );
    assert_eq!(
        bind_registered(&mut record, id("twitter", "alice", "2"), Some(Ok(()))),
        Err(VerifyError::IDExist)
    );
    assert_eq!(record.ledger.members().len(), 1);
    assert_eq!(record.ledger.main().bind_time, "1");
}

#[test]
fn principal_text_is_the_text_of_its_bytes() {
    let principal = candid::Principal::from_slice(&PRINCIPAL_BYTES);
    assert_eq!(principal.to_text(), PRINCIPAL_TEXT);
}

#[test]
fn confirmation_by_another_caller_fails_and_uses_up_the_ticket() {
    let mut record = xid::types::State::new();
    assert!(verify_ic_pre(&mut record, PRINCIPAL_TEXT.to_string()));
    assert_eq!(record.ic_verify, PRINCIPAL_TEXT);
    let step = verify_ic_post(&mut record, "aaaaa-aa", 7);
    assert_eq!(step_error(step), VerifyError::VerifyErr);
    assert_eq!(record.ic_verify, "");
    assert!(record.ledger.members().is_empty());
    assert!(record.ledger.main().is_unset());

    let stale = verify_ic_post(&mut record, PRINCIPAL_TEXT, 8);
    assert_eq!(step_error(stale), VerifyError::IcPrincipalErr);

    assert!(verify_ic_pre(&mut record, PRINCIPAL_TEXT.to_string()));
    let to_record = verify_ic_post(&mut record, PRINCIPAL_TEXT, 9).unwrap();
    assert_eq!(record.ic_verify, "");
    assert_eq!(to_record.platform, "hostprincipal");
    assert_eq!(to_record.platform, HOST_PLATFORM);
    assert_eq!(to_record.identity, PRINCIPAL_TEXT);
    assert_eq!(to_record.bind_time, "9");
    assert_eq!(bind_registered(&mut record, to_record, Some(Ok(()))), Ok(XidResponse::VerifyOk));
    assert!(record.ledger.contains(&id("hostprincipal", PRINCIPAL_TEXT, "")));
    assert_eq!(record.ledger.main().identity, PRINCIPAL_TEXT);
}

#[test]
fn ticket_in_another_letter_case_is_not_the_callers_text() {
    let upper = PRINCIPAL_TEXT.to_uppercase();
    assert_ne!(upper, PRINCIPAL_TEXT);
    assert_eq!(
        candid::Principal::from_text(&upper).unwrap().as_slice(),
        &PRINCIPAL_BYTES[..]
    );
    let mut record = xid::types::State::new();
    assert!(verify_ic_pre(&mut record, upper));
    let step = verify_ic_post(&mut record, PRINCIPAL_TEXT, 7);
    assert_eq!(step_error(step), VerifyError::VerifyErr);
    assert_eq!(record.ic_verify, "");
}

#[test]
fn ticket_that_is_no_principal_fails_and_is_used_up() {
    let mut record = xid::types::State::new();
    for ticket in ["", "not a principal", "2chl6-4hpzw-vqaaa-aaaaa-d", "2chl6-4hpzw-vqaaa-aaaaa-c-"] {
        assert!(verify_ic_pre(&mut record, ticket.to_string()));
        let step = verify_ic_post(&mut record, PRINCIPAL_TEXT, 7);
        assert_eq!(step_error(step), VerifyError::IcPrincipalErr, "ticket {:?}", ticket);
        assert_eq!(record.ic_verify, "");
        assert!(verify_ic_pre(&mut record, ticket.to_string()));
        let same = verify_ic_post(&mut record, ticket, 7);
        assert_eq!(step_error(same), VerifyError::IcPrincipalErr, "ticket {:?}", ticket);
    }
}

#[test]
fn later_ticket_replaces_the_earlier_one() {
    let mut record = xid::types::State::new();
    assert!(verify_ic_pre(&mut record, "aaaaa-aa".to_string()));
    assert!(verify_ic_pre(&mut record, PRINCIPAL_TEXT.to_string()));
    assert_eq!(record.ic_verify, PRINCIPAL_TEXT);
    let step = verify_ic_post(&mut record, "aaaaa-aa", 7);
    assert_eq!(step_error(step), VerifyError::VerifyErr);
}

#[test]
fn management_principal_confirms_its_own_text() {
    let mut record = xid::types::State::new();
    assert!(verify_ic_pre(&mut record, "aaaaa-aa".to_string()));
    let to_record = verify_ic_post(&mut record, "aaaaa-aa", 0).unwrap();
    assert_eq!(to_record.identity, "aaaaa-aa");
    assert_eq!(to_record.bind_time, "0");
}

#[test]
fn later_binding_keeps_a_main_identity_without_identity_text() {
    let mut record = xid::types::State::new();
    assert!(bind_registered(&mut record, id("twitter", "", "1"), Some(Ok(()))).is_ok());
    assert_eq!(record.ledger.main().platform, "twitter");
    assert!(bind_registered(&mut record, id("github", "al", "2"), Some(Ok(()))).is_ok());
    let main = record.ledger.main();
    assert_eq!(
        (main.platform.as_str(), main.identity.as_str(), main.bind_time.as_str()),
        ("twitter", "", "1")
    );
}

#[test]
fn unbinding_removes_locally_before_the_registry_is_asked() {
    let mut record = xid::types::State::new();
    assert!(bind_registered(&mut record, id("twitter", "alice", "1"), Some(Ok(()))).is_ok());
    assert!(bind_registered(&mut record, id("github", "al", "2"), Some(Ok(()))).is_ok());
    let request = unbound_id(&mut record, &id("twitter", "alice", "")).unwrap();
    assert_eq!((request.platform.as_str(), request.identity.as_str()), ("twitter", "alice"));
    assert!(!record.ledger.contains(&id("twitter", "alice", "")));
    assert!(record.ledger.main().is_unset());
    assert_eq!(record.ledger.members().len(), 1);
}

#[test]
fn unbinding_what_is_not_bound_asks_no_registry() {
    let mut record = xid::types::State::new();
    assert!(bind_registered(&mut record, id("twitter", "alice", "1"), Some(Ok(()))).is_ok());
    match unbound_id(&mut record, &id("twitter", "bob", "")) {
        Ok(request) => panic!("a request came back: {:?}", request),
        Err(e) => assert_eq!(e, XidError::IDNotExist),
    }
    assert_eq!(record.ledger.members().len(), 1);
}

#[test]
fn registry_answer_to_a_deletion_is_reported_without_rollback() {
    assert_eq!(unbound_id_deleted(Some(Ok(()))), Ok(XidResponse::ChangeIdOk));
    assert_eq!(unbound_id_deleted(Some(Err(XidCenterError::IDNotExist))), Err(XidError::IDNotExist));
    assert_eq!(
        unbound_id_deleted(Some(Err(XidCenterError::XidNotExist))),
        Err(XidError::XidNotExist)
    );
    for e in [
        XidCenterError::IDExist,
        XidCenterError::Invalid_Operation,
        XidCenterError::Invalid_Platform,
        XidCenterError::NotXidOwner,
    ] {
        assert_eq!(unbound_id_deleted(Some(Err(e))), Err(XidError::XidCNoNameErr));
    }
    assert_eq!(unbound_id_deleted(None), Err(XidError::XidCNoNameErr));
}

#[test]
fn main_identity_can_be_changed_to_a_member_only() {
    let mut record = xid::types::State::new();
    assert!(bind_registered(&mut record, id("twitter", "alice", "1"), Some(Ok(()))).is_ok());
    assert!(bind_registered(&mut record, id("github", "al", "2"), Some(Ok(()))).is_ok());
    assert_eq!(change_main_id(&mut record, id("eth", "0x1", "3")), Err(XidError::IDNotExist));
    assert_eq!(record.ledger.main().platform, "twitter");
    assert_eq!(change_main_id(&mut record, id("github", "al", "3")), Ok(XidResponse::ChangeIdOk));
    assert_eq!(record.ledger.main().platform, "github");
    assert_eq!(record.ledger.members().len(), 2);
}

#[test]
fn owner_is_authorized_and_nobody_else() {
    let mut record = xid::types::State::new();
    init(&mut record, PRINCIPAL_TEXT.to_string());
    assert_eq!(is_authorized(&record, PRINCIPAL_TEXT), Ok(()));
    assert_eq!(is_authorized(&record, "aaaaa-aa"), Err("Caller is not authorized".to_string()));
    assert_eq!(is_authorized(&record, ""), Err("Caller is not authorized".to_string()));
    assert_eq!(is_ic_authorized(&record, ""), Ok(()));
    assert!(verify_ic_pre(&mut record, "aaaaa-aa".to_string()));
    assert_eq!(is_ic_authorized(&record, "aaaaa-aa"), Ok(()));
    assert_eq!(
        is_ic_authorized(&record, PRINCIPAL_TEXT),
        Err("Caller is not authorized".to_string())
    );
}

#[test]
fn verifier_state_is_saved_and_restored() {
    let mut verifier = State::new();
    for uuid in ["m", "a", "z"] {
        assert!(verifier.uuids.check_and_consume(uuid));
    }
    let stable = pre_upgrade(&mut verifier);
    assert_eq!(stable.uuids, vec!["a", "m", "z"]);
    assert_eq!(verifier.uuids.len(), 0);
    assert!(verifier.uuids.check_and_consume("other"));
    post_upgrade(&mut verifier, stable);
    assert!(verifier.is_wf());
    assert_eq!(verifier.uuids.len(), 3);
    assert!(!verifier.uuids.contains("other"));
    for uuid in ["m", "a", "z"] {
        assert!(!verifier.uuids.check_and_consume(uuid));
    }
}

#[test]
fn verifier_state_restores_from_any_list() {
    let mut verifier = State::default();
    let stable = StableState { uuids: vec!["b".to_string(), "a".to_string(), "b".to_string()] };
    post_upgrade(&mut verifier, stable);
    assert_eq!(verifier.uuids.len(), 2);
    assert!(verifier.uuids.contains("a") && verifier.uuids.contains("b"));
}

#[test]
fn clearing_the_verifier_forgets_every_identifier() {
    let mut verifier = State::new();
    assert!(verifier.uuids.check_and_consume("x"));
    do_clear(&mut verifier);
    assert_eq!(verifier.uuids.len(), 0);
    assert!(verifier.uuids.check_and_consume("x"));
}
