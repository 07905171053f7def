//! Ed25519: Schnorr signatures using the twisted Edwards form of Curve25519,
//! as described in RFC 8032.
//!
//! This module holds the algorithm family's value types — fixed-size byte
//! encodings of signatures and public keys — and the capability contracts
//! that every provider of the family implements.

use vstd::prelude::*;
use vstd::std_specs::cmp::PartialEqSpec;

use crate::TestVector;
use crate::error::Error;
use crate::error::ErrorKind;

pub mod dalek;
pub mod yubihsm;

pub use dalek::DalekSigner;
pub use dalek::DalekVerifier;
pub use yubihsm::YubihsmSigner;

verus! {

/// Size of an Ed25519 signature (512 bits).
pub const SIGNATURE_SIZE: usize = 64;

/// Size of an Ed25519 public key in compressed Edwards-y form (256 bits).
pub const PUBLIC_KEY_SIZE: usize = 32;

/// Size of an Ed25519 secret-key seed (256 bits).
pub const SEED_SIZE: usize = 32;

/// Copy a byte slice into an owned vector.
pub fn copy_bytes(src: &[u8]) -> (r: Vec<u8>)
    ensures
        r@ == src@,
{
    let mut v: Vec<u8> = Vec::new();
    let mut i: usize = 0;
    while i < src.len()
        invariant
            i <= src@.len(),
            v@ == src@.subrange(0, i as int),
        decreases src@.len() - i,
    {
        v.push(src[i]);
        i = i + 1;
        proof {
            assert(v@ =~= src@.subrange(0, i as int));
        }
    }
    proof {
        assert(src@.subrange(0, src@.len() as int) =~= src@);
    }
    v
}

/// Compare two byte slices for byte-exact equality.
pub fn bytes_equal(a: &[u8], b: &[u8]) -> (r: bool)
    ensures
        r == (a@ == b@),
{
    if a.len() != b.len() {
        return false;
    }
    let mut i: usize = 0;
    while i < a.len()
        invariant
            i <= a@.len(),
            a@.len() == b@.len(),
            forall|j: int| 0 <= j < i ==> a@[j] == b@[j],
        decreases a@.len() - i,
    {
        if a[i] != b[i] {
            return false;
        }
        i = i + 1;
    }
    proof {
        assert(a@ =~= b@);
    }
    true
}

/// Copy a byte vector, flipping exactly one bit.
///
/// The result agrees with the input everywhere except at `byte_index`, where
/// the bit at `bit_index` is inverted; in particular the result never equals
/// the input. This is the corruption primitive of the conformance harness's
/// negative checks.
pub fn flip_bit(bytes: &[u8], byte_index: usize, bit_index: u8) -> (r: Vec<u8>)
    requires
        byte_index < bytes@.len(),
        bit_index < 8,
    ensures
        r@ == bytes@.update(byte_index as int, bytes@[byte_index as int] ^ (1u8 << bit_index)),
        r@.len() == bytes@.len(),
        r@[byte_index as int] != bytes@[byte_index as int],
{
    let mut v: Vec<u8> = Vec::new();
    let mut i: usize = 0;
    while i < bytes.len()
        invariant
            i <= bytes@.len(),
            byte_index < bytes@.len(),
            bit_index < 8,
            v@.len() == i,
            forall|j: int|
                0 <= j < i && j != byte_index ==> v@[j] == bytes@[j],
            byte_index < i ==> v@[byte_index as int] == (bytes@[byte_index as int] ^ (
            1u8 << bit_index)),
        decreases bytes@.len() - i,
    {
        if i == byte_index {
            v.push(bytes[i] ^ (1u8 << bit_index));
        } else {
            v.push(bytes[i]);
        }
        i = i + 1;
    }
    proof {
        assert(v@ =~= bytes@.update(
            byte_index as int,
            bytes@[byte_index as int] ^ (1u8 << bit_index),
        ));
        let x = bytes@[byte_index as int];
        let b = bit_index;
        assert((x ^ (1u8 << b)) != x) by (bit_vector)
            requires
                b < 8,
        ;
    }
    v
}

/// An Ed25519 signature: an opaque 64-byte value.
///
/// Immutable once constructed; construction from a byte slice of the wrong
/// length fails with a recoverable format error.
#[derive(Debug)]
pub struct Signature {
    bytes: Vec<u8>,
}

impl View for Signature {
    type V = Seq<u8>;

    closed spec fn view(&self) -> Seq<u8> {
        self.bytes@
    }
}

impl Signature {
    /// A signature value always holds exactly [`SIGNATURE_SIZE`] bytes.
    #[verifier::type_invariant]
    pub open spec fn well_formed(&self) -> bool {
        self@.len() == SIGNATURE_SIZE
    }

    /// Build a signature from its byte encoding. Succeeds exactly on slices
    /// of length [`SIGNATURE_SIZE`]; any other length is rejected with a
    /// format failure.
    pub fn from_bytes(bytes: &[u8]) -> (r: Result<Signature, Error>)
        ensures
            bytes@.len() == SIGNATURE_SIZE ==> (r matches Ok(s) && s@ == bytes@
                && s.well_formed()),
            bytes@.len() != SIGNATURE_SIZE ==> (r matches Err(e) && e.kind
                == ErrorKind::FormatFailure),
    {
        if bytes.len() != SIGNATURE_SIZE {
            return Err(Error::new(ErrorKind::FormatFailure));
        }
        Ok(Signature { bytes: copy_bytes(bytes) })
    }

    /// Obtain the signature as a borrowed byte slice.
    pub fn to_bytes(&self) -> (r: &[u8])
        ensures
            r@ == self@,
    {
        self.bytes.as_slice()
    }

    /// Consume the signature into its owned byte encoding.
    pub fn into_bytes(self) -> (r: Vec<u8>)
        ensures
            r@ == self@,
    {
        self.bytes
    }
}

impl PartialEq for Signature {
    /// Equality of signatures is byte-exact.
    fn eq(&self, other: &Signature) -> (r: bool) {
        bytes_equal(self.bytes.as_slice(), other.bytes.as_slice())
    }
}

impl vstd::std_specs::cmp::PartialEqSpecImpl for Signature {
    open spec fn obeys_eq_spec() -> bool {
        true
    }

    open spec fn eq_spec(&self, other: &Signature) -> bool {
        self@ == other@
    }
}

/// An Ed25519 public key: a curve point in its canonical compressed
/// Edwards-y encoding, 32 bytes.
///
/// Only the length is validated at construction; point validity is checked
/// by the backend at verification time, so that hardware-held keys — already
/// validated by the module — carry no redundant cost.
#[derive(Debug)]
pub struct PublicKey {
    bytes: Vec<u8>,
}

impl View for PublicKey {
    type V = Seq<u8>;

    closed spec fn view(&self) -> Seq<u8> {
        self.bytes@
    }
}

impl PublicKey {
    /// A public-key value always holds exactly [`PUBLIC_KEY_SIZE`] bytes.
    #[verifier::type_invariant]
    pub open spec fn well_formed(&self) -> bool {
        self@.len() == PUBLIC_KEY_SIZE
    }

    /// Build a public key from its byte encoding. Succeeds exactly on slices
    /// of length [`PUBLIC_KEY_SIZE`]; any other length is rejected with a
    /// format failure.
    pub fn from_bytes(bytes: &[u8]) -> (r: Result<PublicKey, Error>)
        ensures
            bytes@.len() == PUBLIC_KEY_SIZE ==> (r matches Ok(k) && k@ == bytes@
                && k.well_formed()),
            bytes@.len() != PUBLIC_KEY_SIZE ==> (r matches Err(e) && e.kind
                == ErrorKind::FormatFailure),
    {
        if bytes.len() != PUBLIC_KEY_SIZE {
            return Err(Error::new(ErrorKind::FormatFailure));
        }
        Ok(PublicKey { bytes: copy_bytes(bytes) })
    }

    /// Obtain the public key as a borrowed byte slice.
    pub fn to_bytes(&self) -> (r: &[u8])
        ensures
            r@ == self@,
    {
        self.bytes.as_slice()
    }

    /// Consume the public key into its owned byte encoding.
    pub fn into_bytes(self) -> (r: Vec<u8>)
        ensures
            r@ == self@,
    {
        self.bytes
    }
}

impl PartialEq for PublicKey {
    /// Equality of public keys is byte-exact.
    fn eq(&self, other: &PublicKey) -> (r: bool) {
        bytes_equal(self.bytes.as_slice(), other.bytes.as_slice())
    }
}

impl vstd::std_specs::cmp::PartialEqSpecImpl for PublicKey {
    open spec fn obeys_eq_spec() -> bool {
        true
    }

    open spec fn eq_spec(&self, other: &PublicKey) -> bool {
        self@ == other@
    }
}

/// Round trip: a signature rebuilt from the bytes of a well-formed signature
/// is equal to the original. The hypothesis on `r` is exactly what
/// [`Signature::from_bytes`] ensures when handed `v.to_bytes()`.
pub proof fn lemma_signature_round_trip(v: Signature, r: Signature)
    requires
        v.well_formed(),
        r@ == v@,
    ensures
        r.eq_spec(&v),
        v.eq_spec(&r),
{
}

/// Round trip: a public key rebuilt from the bytes of a well-formed public
/// key is equal to the original. The hypothesis on `r` is exactly what
/// [`PublicKey::from_bytes`] ensures when handed `v.to_bytes()`.
pub proof fn lemma_public_key_round_trip(v: PublicKey, r: PublicKey)
    requires
        v.well_formed(),
        r@ == v@,
    ensures
        r.eq_spec(&v),
        v.eq_spec(&r),
{
}

/// Capability contract for providers that sign raw messages: the provider
/// hashes internally as the algorithm prescribes. Each provider states in
/// `signed` what its result guarantees; every provider guarantees that a
/// signature it returns is well-formed.
pub trait Signer {
    /// What this provider's [`Signer::sign`] guarantees of its result.
    spec fn signed(&self, msg: Seq<u8>, r: Result<Signature, Error>) -> bool;

    /// Compute an Ed25519 signature for the given message.
    fn sign(&self, msg: &[u8]) -> (r: Result<Signature, Error>)
        ensures
            self.signed(msg@, r),
            r matches Ok(s) ==> s.well_formed(),
    ;
}

/// Capability contract for providers that verify a signature over a raw
/// message: the signature should be accepted exactly when it is valid over
/// the message under the provider's public key, and any rejection surfaces
/// as a single verification-failure kind, never distinguished by reason.
/// Each provider states in `verified` what its verdict guarantees.
pub trait Verifier {
    /// What this provider's [`Verifier::verify`] guarantees of its result.
    spec fn verified(&self, msg: Seq<u8>, sig: Seq<u8>, r: Result<(), Error>) -> bool;

    /// Check `signature` over `msg` under this verifier's public key.
    fn verify(&self, msg: &[u8], signature: &Signature) -> (r: Result<(), Error>)
        ensures
            self.verified(msg@, signature@, r),
            r matches Err(e) ==> e.kind == ErrorKind::VerificationFailure,
    ;
}

/// A verification-failure verdict of the conformance harness is justified:
/// the signer produced a signature that mismatches the vector, the verifier
/// rejected the vector's expected signature, the verifier accepted the
/// corrupted copy of it, or the provider itself failed with this error.
pub open spec fn disagreement_witnessed<S: Signer, V: Verifier>(
    signer: &S,
    verifier: &V,
    vector: &TestVector,
    e: Error,
) -> bool {
    ||| exists|s: Signature|
        (#[trigger] signer.signed(vector.msg@, Result::Ok(s))) && s@ != vector.sig@
    ||| exists|u: Result<(), Error>|
        (#[trigger] verifier.verified(vector.msg@, vector.sig@, u)) && u is Err
    ||| exists|u: Result<(), Error>|
        (#[trigger] verifier.verified(
            vector.msg@,
            vector.sig@.update(0, vector.sig@[0] ^ (1u8 << 0)),
            u,
        )) && u is Ok
    ||| signer.signed(vector.msg@, Result::Err(e))
}

/// Conformance harness, run identically against every provider pair of the
/// family: signs the vector's message and demands byte-exact agreement with
/// the vector's expected signature, demands that the expected signature
/// verifies over the message, and demands that a corrupted copy of it — its
/// lowest bit flipped — is rejected. On success, each of those three facts is
/// guaranteed by the contract below. On failure the first failing step's
/// error is returned: the provider's own error, a format failure only where
/// the vector's signature has the wrong length, and a verification failure
/// only on a genuine disagreement — a produced signature that mismatches the
/// vector, an expected signature the verifier rejected, or a corrupted copy
/// it accepted — never invented by the harness itself.
pub fn conformance<S: Signer, V: Verifier>(signer: &S, verifier: &V, vector: &TestVector) -> (r:
    Result<(), Error>)
    ensures
        r is Ok ==> (exists|s: Signature|
            (#[trigger] signer.signed(vector.msg@, Result::Ok(s))) && s@ == vector.sig@),
        r is Ok ==> (exists|u: Result<(), Error>|
            (#[trigger] verifier.verified(vector.msg@, vector.sig@, u)) && u is Ok),
        r is Ok ==> (exists|u: Result<(), Error>|
            (#[trigger] verifier.verified(
                vector.msg@,
                vector.sig@.update(0, vector.sig@[0] ^ (1u8 << 0)),
                u,
            )) && u is Err),
        r matches Err(e) ==> (signer.signed(vector.msg@, Result::Err(e)) || e.kind
            == ErrorKind::VerificationFailure || (e.kind == ErrorKind::FormatFailure
            && vector.sig@.len() != SIGNATURE_SIZE)),
        r matches Err(e) ==> (e.kind == ErrorKind::VerificationFailure
            ==> disagreement_witnessed(signer, verifier, vector, e)),
{
    let produced = match signer.sign(vector.msg.as_slice()) {
        Ok(s) => s,
        Err(e) => {
            return Err(e);
        },
    };
    if !bytes_equal(produced.to_bytes(), vector.sig.as_slice()) {
        return Err(Error::new(ErrorKind::VerificationFailure));
    }
    let expected = match Signature::from_bytes(vector.sig.as_slice()) {
        Ok(s) => s,
        Err(e) => {
            return Err(e);
        },
    };
    match verifier.verify(vector.msg.as_slice(), &expected) {
        Ok(()) => (),
        Err(e) => {
            return Err(e);
        },
    }
    let corrupted_bytes = flip_bit(vector.sig.as_slice(), 0, 0);
    let corrupted = match Signature::from_bytes(corrupted_bytes.as_slice()) {
        Ok(s) => s,
        Err(e) => {
            return Err(e);
        },
    };
    match verifier.verify(vector.msg.as_slice(), &corrupted) {
        Ok(()) => Err(Error::new(ErrorKind::VerificationFailure)),
        Err(e) => Ok(()),
    }
}

} // verus!
