//! Signatory: a multi-provider digital signature library.
//!
//! A uniform interface for producing and verifying Ed25519 signatures across
//! heterogeneous backends: an in-process software provider and a
//! hardware-security-module provider reached through a session-oriented
//! transport. Every backend is used through the same algorithm contract and
//! reports failures through one shared error taxonomy.

use vstd::prelude::*;

pub mod ed25519;
pub mod error;

pub use error::Error;
pub use error::ErrorKind;

verus! {

/// Signature test vector: a fixed input/output tuple used by the conformance
/// harness to check that a provider's sign/verify behaviour matches the
/// algorithm's published specification exactly.
pub struct TestVector {
    /// Secret key (i.e. seed)
    pub sk: Vec<u8>,

    /// Public key in compressed Edwards-y form
    pub pk: Vec<u8>,

    /// Message to be signed
    pub msg: Vec<u8>,

    /// Expected signature
    pub sig: Vec<u8>,
}

} // verus!
