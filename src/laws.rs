use vstd::prelude::*;

use crate::error::{KeyRole, SignatureFailure, VerifyError};
use crate::stage::{spec_next_action, spec_run, spec_step, spec_verdict, Action, Event, Stage};

verus! {

/// Whether the events of `w` all occur in `evs`, in the same order, possibly
/// with other events between them.
pub open spec fn occurs_in_order(w: Seq<Event>, evs: Seq<Event>) -> bool
    decreases evs.len(),
{
    if w.len() == 0 {
        true
    } else if evs.len() == 0 {
        false
    } else {
        (evs[0] == w[0] && occurs_in_order(w.drop_first(), evs.drop_first()))
            || occurs_in_order(w, evs.drop_first())
    }
}

/// The successful outcomes that a verification in stage `s` still needs
/// before it can be accepted.
pub open spec fn still_owed(s: Stage) -> Seq<Event> {
    match s {
        Stage::Start => seq![
            Event::RootKey { decoded: true },
            Event::CanisterKey { decoded: true },
            Event::SignatureValid,
        ],
        Stage::RootKeyDecoded => seq![Event::CanisterKey { decoded: true }, Event::SignatureValid],
        Stage::KeysDecoded => seq![Event::SignatureValid],
        _ => Seq::empty(),
    }
}

/// A rejection is final: whatever is reported afterwards, the verification
/// stays rejected for the same reason.
pub proof fn lemma_rejection_is_final(e: VerifyError, evs: Seq<Event>)
    ensures
        spec_run(Stage::Rejected(e), evs) == Stage::Rejected(e),
        spec_verdict(spec_run(Stage::Rejected(e), evs)) == Some(false),
    decreases evs.len(),
{
    if evs.len() > 0 {
        lemma_rejection_is_final(e, evs.drop_first());
    }
}

/// An acceptance is final as well.
pub proof fn lemma_acceptance_is_final(evs: Seq<Event>)
    ensures
        spec_run(Stage::Accepted, evs) == Stage::Accepted,
    decreases evs.len(),
{
    if evs.len() > 0 {
        lemma_acceptance_is_final(evs.drop_first());
    }
}

proof fn lemma_accepted_only_after_owed(s: Stage, evs: Seq<Event>)
    requires
        spec_run(s, evs) == Stage::Accepted,
    ensures
        occurs_in_order(still_owed(s), evs),
    decreases evs.len(),
{
    if evs.len() > 0 {
        let next = spec_step(s, evs[0]);
        let rest = evs.drop_first();
        if let Stage::Rejected(e) = next {
            lemma_rejection_is_final(e, rest);
        } else {
            lemma_accepted_only_after_owed(next, rest);
            if next != s {
                assert(still_owed(s).drop_first() =~= still_owed(next));
            }
        }
    }
}

/// Soundness of the decision: a verification is accepted only if the root
/// key was decoded, then the canister key was decoded, and then the
/// signature check succeeded. No stage can be skipped.
pub proof fn lemma_acceptance_requires_every_stage(evs: Seq<Event>)
    requires
        spec_run(Stage::Start, evs) == Stage::Accepted,
    ensures
        occurs_in_order(
            seq![
                Event::RootKey { decoded: true },
                Event::CanisterKey { decoded: true },
                Event::SignatureValid,
            ],
            evs,
        ),
{
    lemma_accepted_only_after_owed(Stage::Start, evs);
}

/// When every stage succeeds, in order, the verification is accepted.
pub proof fn lemma_every_stage_passing_accepts()
    ensures
        spec_run(
            Stage::Start,
            seq![
                Event::RootKey { decoded: true },
                Event::CanisterKey { decoded: true },
                Event::SignatureValid,
            ],
        ) == Stage::Accepted,
{
    let evs = seq![
        Event::RootKey { decoded: true },
        Event::CanisterKey { decoded: true },
        Event::SignatureValid,
    ];
    let e1 = evs.drop_first();
    let e2 = e1.drop_first();
    let e3 = e2.drop_first();
    assert(evs[0] == Event::RootKey { decoded: true });
    assert(e1[0] == Event::CanisterKey { decoded: true });
    assert(e2[0] == Event::SignatureValid);
    assert(e3.len() == 0);
    assert(spec_run(Stage::Accepted, e3) == Stage::Accepted);
    assert(spec_run(Stage::KeysDecoded, e2) == Stage::Accepted);
    assert(spec_run(Stage::RootKeyDecoded, e1) == Stage::Accepted);
}

/// A key that fails to decode rejects the verification with a key decoding
/// error that names the key, whatever is reported afterwards; the verdict is
/// `false`.
pub proof fn lemma_undecodable_key_rejects(evs: Seq<Event>)
    ensures
        spec_run(Stage::Start, seq![Event::RootKey { decoded: false }] + evs)
            == Stage::Rejected(VerifyError::KeyDecodeError(KeyRole::Root)),
        spec_run(Stage::RootKeyDecoded, seq![Event::CanisterKey { decoded: false }] + evs)
            == Stage::Rejected(VerifyError::KeyDecodeError(KeyRole::Canister)),
        spec_verdict(spec_run(Stage::Start, seq![Event::RootKey { decoded: false }] + evs))
            == Some(false),
        spec_verdict(
            spec_run(Stage::RootKeyDecoded, seq![Event::CanisterKey { decoded: false }] + evs),
        ) == Some(false),
{
    let r = seq![Event::RootKey { decoded: false }] + evs;
    let c = seq![Event::CanisterKey { decoded: false }] + evs;
    assert(r.drop_first() =~= evs);
    assert(c.drop_first() =~= evs);
    lemma_rejection_is_final(VerifyError::KeyDecodeError(KeyRole::Root), evs);
    lemma_rejection_is_final(VerifyError::KeyDecodeError(KeyRole::Canister), evs);
}

/// A signature that fails to decode (a malformed certificate, or one whose
/// delegation chain is too deep) rejects the verification with a signature
/// decoding error, after which no further work is asked for.
pub proof fn lemma_undecodable_signature_rejects(evs: Seq<Event>)
    ensures
        spec_run(Stage::KeysDecoded, seq![Event::SignatureRejected(SignatureFailure::Decode)] + evs)
            == Stage::Rejected(VerifyError::SignatureDecodeError),
        spec_next_action(
            spec_run(
                Stage::KeysDecoded,
                seq![Event::SignatureRejected(SignatureFailure::Decode)] + evs,
            ),
        ) == Action::Finish,
{
    let s = seq![Event::SignatureRejected(SignatureFailure::Decode)] + evs;
    assert(s.drop_first() =~= evs);
    lemma_rejection_is_final(VerifyError::SignatureDecodeError, evs);
}

/// Only a verification whose two keys were both decoded asks for the
/// signature to be checked.
pub proof fn lemma_signature_checked_only_after_keys(s: Stage)
    ensures
        spec_next_action(s) == Action::VerifySignature <==> s == Stage::KeysDecoded,
{
}

} // verus!
