use canister_sig_verifier::{Action, Event, KeyRole, SignatureFailure, Stage, VerifyError};

fn run(events: &[Event]) -> Stage {
    let mut stage = Stage::new();
    for e in events {
        stage = stage.step(*e);
    }
    stage
}

const ROOT_OK: Event = Event::RootKey { decoded: true };
const CANISTER_OK: Event = Event::CanisterKey { decoded: true };

#[test]
fn new_stage_asks_for_root_key() {
    let s = Stage::new();
    assert_eq!(s, Stage::Start);
    assert_eq!(s.next_action(), Action::DecodeRootKey);
    assert_eq!(s.verdict(), None);
    assert_eq!(s.failure(), None);
}

#[test]
fn actions_follow_the_fixed_order() {
    let s = Stage::new().step(ROOT_OK);
    assert_eq!(s, Stage::RootKeyDecoded);
    assert_eq!(s.next_action(), Action::DecodeCanisterKey);
    let s = s.step(CANISTER_OK);
    assert_eq!(s, Stage::KeysDecoded);
    assert_eq!(s.next_action(), Action::VerifySignature);
    let s = s.step(Event::SignatureValid);
    assert_eq!(s, Stage::Accepted);
    assert_eq!(s.next_action(), Action::Finish);
}

#[test]
fn all_stages_passing_accepts() {
    let s = run(&[ROOT_OK, CANISTER_OK, Event::SignatureValid]);
    assert_eq!(s.verdict(), Some(true));
    assert_eq!(s.failure(), None);
}

#[test]
fn changed_challenge_rejects() {
    // the same keys, but the signature no longer covers the challenge
    let s = run(&[ROOT_OK, CANISTER_OK, Event::SignatureRejected(SignatureFailure::Invalid)]);
    assert_eq!(s.verdict(), Some(false));
    assert_eq!(s.failure(), Some(VerifyError::SignatureInvalid));
}

#[test]
fn undecodable_root_key_rejects() {
    let s = run(&[Event::RootKey { decoded: false }]);
    assert_eq!(s.verdict(), Some(false));
    assert_eq!(s.failure(), Some(VerifyError::KeyDecodeError(KeyRole::Root)));
    assert_eq!(s.next_action(), Action::Finish);
}

#[test]
fn undecodable_canister_key_rejects() {
    let s = run(&[ROOT_OK, Event::CanisterKey { decoded: false }]);
    assert_eq!(s.verdict(), Some(false));
    assert_eq!(s.failure(), Some(VerifyError::KeyDecodeError(KeyRole::Canister)));
    assert_eq!(s.next_action(), Action::Finish);
}

#[test]
fn too_deep_delegation_rejects_before_more_work() {
    let s = run(&[ROOT_OK, CANISTER_OK, Event::SignatureRejected(SignatureFailure::Decode)]);
    assert_eq!(s.failure(), Some(VerifyError::SignatureDecodeError));
    assert_eq!(s.verdict(), Some(false));
    assert_eq!(s.next_action(), Action::Finish);
}

#[test]
fn each_signature_failure_has_its_reason() {
    let cases = [
        (SignatureFailure::Decode, VerifyError::SignatureDecodeError),
        (SignatureFailure::PathNotFound, VerifyError::PathNotFound),
        (SignatureFailure::HashMismatch, VerifyError::HashMismatch),
        (SignatureFailure::Invalid, VerifyError::SignatureInvalid),
        (SignatureFailure::DelegationRange, VerifyError::DelegationRangeViolation),
    ];
    for (f, e) in cases {
        assert_eq!(VerifyError::from_signature_failure(f), e);
        let s = run(&[ROOT_OK, CANISTER_OK, Event::SignatureRejected(f)]);
        assert_eq!(s, Stage::Rejected(e));
        assert_eq!(s.verdict(), Some(false));
    }
}

#[test]
fn rejection_is_final() {
    let s = run(&[
        Event::RootKey { decoded: false },
        ROOT_OK,
        CANISTER_OK,
        Event::SignatureValid,
    ]);
    assert_eq!(s, Stage::Rejected(VerifyError::KeyDecodeError(KeyRole::Root)));
    assert_eq!(s.verdict(), Some(false));
}

#[test]
fn acceptance_is_final() {
    let s = run(&[
        ROOT_OK,
        CANISTER_OK,
        Event::SignatureValid,
        Event::SignatureRejected(SignatureFailure::Invalid),
        Event::RootKey { decoded: false },
    ]);
    assert_eq!(s, Stage::Accepted);
}

#[test]
fn stages_cannot_be_skipped() {
    // a signature outcome before the keys are decoded is not an answer
    let s = run(&[Event::SignatureValid, CANISTER_OK, Event::SignatureValid]);
    assert_eq!(s, Stage::Start);
    assert_eq!(s.verdict(), None);
    let s = run(&[ROOT_OK, Event::SignatureValid]);
    assert_eq!(s, Stage::RootKeyDecoded);
    assert_eq!(s.next_action(), Action::DecodeCanisterKey);
}

#[test]
fn same_events_give_same_verdict() {
    let events = [ROOT_OK, CANISTER_OK, Event::SignatureRejected(SignatureFailure::PathNotFound)];
    let a = run(&events);
    let b = run(&events);
    assert_eq!(a, b);
    assert_eq!(a.verdict(), b.verdict());
    assert_eq!(a.failure(), Some(VerifyError::PathNotFound));
}
