use vstd::prelude::*;

verus! {

/// Which of the two DER-encoded keys of a verification is meant.
#[derive(Clone, Copy, Debug, PartialEq, Eq, Structural)]
pub enum KeyRole {
    /// The network-wide threshold key that anchors trust.
    Root,
    /// The public key of the canister that claims to have signed.
    Canister,
}

/// Why checking the signature itself failed, once both keys were decoded.
#[derive(Clone, Copy, Debug, PartialEq, Eq, Structural)]
pub enum SignatureFailure {
    /// The certificate encoding is malformed, not canonical, misses a field,
    /// or holds a delegation chain deeper than allowed.
    Decode,
    /// The leaf derived from the seed and the challenge is absent.
    PathNotFound,
    /// The tree's hash chain is inconsistent (a pruned node on the path).
    HashMismatch,
    /// A pairing check failed.
    Invalid,
    /// The canister lies outside the range that a delegation covers.
    DelegationRange,
}

/// The reason a verification was rejected.
#[derive(Clone, Copy, Debug, PartialEq, Eq, Structural)]
pub enum VerifyError {
    KeyDecodeError(KeyRole),
    SignatureDecodeError,
    PathNotFound,
    HashMismatch,
    SignatureInvalid,
    DelegationRangeViolation,
}

/// The rejection reason that a failed signature check stands for.
pub open spec fn spec_error_of(f: SignatureFailure) -> VerifyError {
    match f {
        SignatureFailure::Decode => VerifyError::SignatureDecodeError,
        SignatureFailure::PathNotFound => VerifyError::PathNotFound,
        SignatureFailure::HashMismatch => VerifyError::HashMismatch,
        SignatureFailure::Invalid => VerifyError::SignatureInvalid,
        SignatureFailure::DelegationRange => VerifyError::DelegationRangeViolation,
    }
}

impl VerifyError {
    /// The rejection reason for a failed signature check.
    pub fn from_signature_failure(f: SignatureFailure) -> (r: VerifyError)
        ensures
            r == spec_error_of(f),
    {
        match f {
            SignatureFailure::Decode => VerifyError::SignatureDecodeError,
            SignatureFailure::PathNotFound => VerifyError::PathNotFound,
            SignatureFailure::HashMismatch => VerifyError::HashMismatch,
            SignatureFailure::Invalid => VerifyError::SignatureInvalid,
            SignatureFailure::DelegationRange => VerifyError::DelegationRangeViolation,
        }
    }
}

} // verus!
