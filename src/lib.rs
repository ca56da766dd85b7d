//! Decision logic for verifying a canister signature.
//!
//! A verification decodes the root-of-trust key, decodes the canister's key,
//! and checks the signature against both. The cryptographic work is done by
//! the caller; this library decides, stage by stage, what is done next and
//! what the verdict is, and proves that no stage can be skipped.

pub mod error;
pub mod laws;
pub mod stage;

pub use error::{KeyRole, SignatureFailure, VerifyError};
pub use stage::{Action, Event, Stage};
