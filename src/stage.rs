use vstd::prelude::*;

use crate::error::{spec_error_of, KeyRole, SignatureFailure, VerifyError};

verus! {

/// Where one verification stands. Stages run in a fixed order with no way
/// back: `Start`, `RootKeyDecoded`, `KeysDecoded`, then `Accepted`; any
/// failure goes straight to `Rejected`, carrying its reason.
#[derive(Clone, Copy, Debug, PartialEq, Eq, Structural)]
pub enum Stage {
    Start,
    RootKeyDecoded,
    KeysDecoded,
    Accepted,
    Rejected(VerifyError),
}

/// The work that the caller performs next.
#[derive(Clone, Copy, Debug, PartialEq, Eq, Structural)]
pub enum Action {
    /// Decode the DER-encoded root-of-trust key.
    DecodeRootKey,
    /// Decode the DER-encoded canister key.
    DecodeCanisterKey,
    /// Check the signature over the challenge against both keys.
    VerifySignature,
    /// Nothing is left to do: the verdict is known.
    Finish,
}

/// What the caller reports back after performing an action.
#[derive(Clone, Copy, Debug, PartialEq, Eq, Structural)]
pub enum Event {
    RootKey { decoded: bool },
    CanisterKey { decoded: bool },
    SignatureValid,
    SignatureRejected(SignatureFailure),
}

pub open spec fn spec_next_action(s: Stage) -> Action {
    match s {
        Stage::Start => Action::DecodeRootKey,
        Stage::RootKeyDecoded => Action::DecodeCanisterKey,
        Stage::KeysDecoded => Action::VerifySignature,
        _ => Action::Finish,
    }
}

/// Whether `e` reports the outcome of action `a`.
pub open spec fn answers(a: Action, e: Event) -> bool {
    match a {
        Action::DecodeRootKey => e is RootKey,
        Action::DecodeCanisterKey => e is CanisterKey,
        Action::VerifySignature => e is SignatureValid || e is SignatureRejected,
        Action::Finish => false,
    }
}

/// The stage after event `e`. An event that does not answer the pending
/// action leaves the stage as it is.
pub open spec fn spec_step(s: Stage, e: Event) -> Stage {
    match (s, e) {
        (Stage::Start, Event::RootKey { decoded }) => if decoded {
            Stage::RootKeyDecoded
        } else {
            Stage::Rejected(VerifyError::KeyDecodeError(KeyRole::Root))
        },
        (Stage::RootKeyDecoded, Event::CanisterKey { decoded }) => if decoded {
            Stage::KeysDecoded
        } else {
            Stage::Rejected(VerifyError::KeyDecodeError(KeyRole::Canister))
        },
        (Stage::KeysDecoded, Event::SignatureValid) => Stage::Accepted,
        (Stage::KeysDecoded, Event::SignatureRejected(f)) => Stage::Rejected(spec_error_of(f)),
        _ => s,
    }
}

/// The stage reached from `s` after the events `evs`, in order.
pub open spec fn spec_run(s: Stage, evs: Seq<Event>) -> Stage
    decreases evs.len(),
{
    if evs.len() == 0 {
        s
    } else {
        spec_run(spec_step(s, evs[0]), evs.drop_first())
    }
}

/// The boolean verdict of a finished verification.
pub open spec fn spec_verdict(s: Stage) -> Option<bool> {
    match s {
        Stage::Accepted => Some(true),
        Stage::Rejected(_) => Some(false),
        _ => None,
    }
}

impl Stage {
    /// The stage of a verification that has not begun.
    pub fn new() -> (r: Stage)
        ensures
            r == Stage::Start,
    {
        Stage::Start
    }

    /// The work that must be done next.
    pub fn next_action(&self) -> (r: Action)
        ensures
            r == spec_next_action(*self),
    {
        match self {
            Stage::Start => Action::DecodeRootKey,
            Stage::RootKeyDecoded => Action::DecodeCanisterKey,
            Stage::KeysDecoded => Action::VerifySignature,
            _ => Action::Finish,
        }
    }

    /// The stage after the caller reports event `e`.
    pub fn step(self, e: Event) -> (r: Stage)
        ensures
            r == spec_step(self, e),
            answers(spec_next_action(self), e) ==> r != self,
            !answers(spec_next_action(self), e) ==> r == self,
    {
        match (self, e) {
            (Stage::Start, Event::RootKey { decoded }) => if decoded {
                Stage::RootKeyDecoded
            } else {
                Stage::Rejected(VerifyError::KeyDecodeError(KeyRole::Root))
            },
            (Stage::RootKeyDecoded, Event::CanisterKey { decoded }) => if decoded {
                Stage::KeysDecoded
            } else {
                Stage::Rejected(VerifyError::KeyDecodeError(KeyRole::Canister))
            },
            (Stage::KeysDecoded, Event::SignatureValid) => Stage::Accepted,
            (Stage::KeysDecoded, Event::SignatureRejected(f)) => Stage::Rejected(
                VerifyError::from_signature_failure(f),
            ),
            _ => self,
        }
    }

    /// `Some(true)` once accepted, `Some(false)` once rejected, and `None`
    /// while work remains.
    pub fn verdict(&self) -> (r: Option<bool>)
        ensures
            r == spec_verdict(*self),
            r == Some(true) <==> *self == Stage::Accepted,
            r == Some(false) <==> *self is Rejected,
            r is None <==> spec_next_action(*self) != Action::Finish,
    {
        match self {
            Stage::Accepted => Some(true),
            Stage::Rejected(_) => Some(false),
            _ => None,
        }
    }

    /// The reason for rejection, if the verification was rejected.
    pub fn failure(&self) -> (r: Option<VerifyError>)
        ensures
            r == (match *self {
                Stage::Rejected(e) => Some(e),
                _ => None::<VerifyError>,
            }),
    {
        match self {
            Stage::Rejected(e) => Some(*e),
            _ => None,
        }
    }
}

} // verus!
