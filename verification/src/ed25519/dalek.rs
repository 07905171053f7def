//! Software Ed25519 provider backed by the `ed25519_dalek` crate.
//!
//! The provider owns the 32-byte secret-key seed; signing and verification
//! are pure, synchronous, in-memory computations delegated to the curve-math
//! collaborator. Ed25519 is deterministic, so the signature, the derived
//! public key and the verification verdict are each a function of their byte
//! inputs alone; those functions are given names here and every contract of
//! this module speaks of the names exactly.

use vstd::prelude::*;

use crate::ed25519::PUBLIC_KEY_SIZE;
use crate::ed25519::PublicKey;
use crate::ed25519::SEED_SIZE;
use crate::ed25519::SIGNATURE_SIZE;
use crate::ed25519::Signature;
use crate::ed25519::Signer;
use crate::ed25519::Verifier;
use crate::ed25519::copy_bytes;
use crate::error::Error;
use crate::error::ErrorKind;

verus! {

/// The Ed25519 signature over `msg` under the secret key with seed `seed`,
/// per RFC 8032.
pub uninterp spec fn ed25519_signature(seed: Seq<u8>, msg: Seq<u8>) -> Seq<u8>;

/// The compressed Edwards-y encoding of the public key derived from the
/// secret key with seed `seed`, per RFC 8032.
pub uninterp spec fn ed25519_public_key(seed: Seq<u8>) -> Seq<u8>;

/// Whether `sig` is accepted as a signature over `msg` under the public key
/// encoded by `pk`: `pk` decodes to a valid curve point and the strict
/// verification equation of RFC 8032 holds.
pub uninterp spec fn ed25519_verifies(pk: Seq<u8>, msg: Seq<u8>, sig: Seq<u8>) -> bool;

/// Relies on `ed25519_dalek::SigningKey::from_bytes` (an infallible
/// conversion of a 32-byte seed) and `ed25519_dalek::Signer::sign`, whose
/// `try_sign` for `SigningKey` always returns `Ok`: deterministic Ed25519
/// signing whose 64-byte result depends on the seed and message alone.
#[verifier::external_body]
fn dalek_sign(seed: &[u8], msg: &[u8]) -> (r: Vec<u8>)
    requires
        seed@.len() == SEED_SIZE,
    ensures
        r@ == ed25519_signature(seed@, msg@),
        r@.len() == SIGNATURE_SIZE,
{
    let arr: [u8; 32] = seed.try_into().unwrap();
    let key = ed25519_dalek::SigningKey::from_bytes(&arr);
    let sig = ed25519_dalek::Signer::sign(&key, msg);
    sig.to_bytes().to_vec()
}

/// Relies on `ed25519_dalek::SigningKey::{from_bytes, verifying_key}` and
/// `VerifyingKey::to_bytes`: the 32-byte public key is derived from the seed
/// alone.
#[verifier::external_body]
fn dalek_public_key(seed: &[u8]) -> (r: Vec<u8>)
    requires
        seed@.len() == SEED_SIZE,
    ensures
        r@ == ed25519_public_key(seed@),
        r@.len() == PUBLIC_KEY_SIZE,
{
    let arr: [u8; 32] = seed.try_into().unwrap();
    let key = ed25519_dalek::SigningKey::from_bytes(&arr);
    key.verifying_key().to_bytes().to_vec()
}

/// Relies on `ed25519_dalek::VerifyingKey::from_bytes` and
/// `VerifyingKey::verify_strict`: both are deterministic in their byte
/// inputs, so the verdict — false when the key bytes decode to no valid
/// point, otherwise whether strict verification accepts — is a function of
/// the three byte strings alone.
#[verifier::external_body]
fn dalek_verify(pk: &[u8], msg: &[u8], sig: &[u8]) -> (r: bool)
    requires
        pk@.len() == PUBLIC_KEY_SIZE,
        sig@.len() == SIGNATURE_SIZE,
    ensures
        r == ed25519_verifies(pk@, msg@, sig@),
{
    let pk_arr: [u8; 32] = pk.try_into().unwrap();
    let sig_arr: [u8; 64] = sig.try_into().unwrap();
    let key = match ed25519_dalek::VerifyingKey::from_bytes(&pk_arr) {
        Ok(k) => k,
        Err(_) => return false,
    };
    let sig = ed25519_dalek::Signature::from_bytes(&sig_arr);
    key.verify_strict(msg, &sig).is_ok()
}

/// Software Ed25519 signing provider: owns a secret-key seed in memory.
pub struct DalekSigner {
    seed: Vec<u8>,
}

impl View for DalekSigner {
    type V = Seq<u8>;

    /// The seed this signer signs under.
    closed spec fn view(&self) -> Seq<u8> {
        self.seed@
    }
}

impl DalekSigner {
    /// A signer always holds a seed of exactly [`SEED_SIZE`] bytes.
    #[verifier::type_invariant]
    pub open spec fn well_formed(&self) -> bool {
        self@.len() == SEED_SIZE
    }

    /// Build a signer from a secret-key seed. Succeeds exactly on slices of
    /// length [`SEED_SIZE`]; any other length is rejected with a format
    /// failure.
    pub fn from_seed(seed: &[u8]) -> (r: Result<DalekSigner, Error>)
        ensures
            seed@.len() == SEED_SIZE ==> (r matches Ok(s) && s@ == seed@),
            seed@.len() != SEED_SIZE ==> (r matches Err(e) && e.kind == ErrorKind::FormatFailure),
    {
        if seed.len() != SEED_SIZE {
            return Err(Error::new(ErrorKind::FormatFailure));
        }
        Ok(DalekSigner { seed: copy_bytes(seed) })
    }

    /// The public key derived from this signer's seed.
    pub fn public_key(&self) -> (r: PublicKey)
        ensures
            r@ == ed25519_public_key(self@),
    {
        proof {
            use_type_invariant(&*self);
        }
        let bytes = dalek_public_key(self.seed.as_slice());
        PublicKey::from_bytes(bytes.as_slice()).unwrap()
    }
}

impl Signer for DalekSigner {
    /// This provider never fails, and the signature it returns is exactly
    /// the deterministic Ed25519 signature of the message under its seed.
    open spec fn signed(&self, msg: Seq<u8>, r: Result<Signature, Error>) -> bool {
        r matches Ok(s) && s@ == ed25519_signature(self@, msg)
    }

    fn sign(&self, msg: &[u8]) -> (r: Result<Signature, Error>) {
        proof {
            use_type_invariant(&*self);
        }
        let bytes = dalek_sign(self.seed.as_slice(), msg);
        Ok(Signature::from_bytes(bytes.as_slice()).unwrap())
    }
}

/// Software Ed25519 verification provider: holds the public key to verify
/// under.
pub struct DalekVerifier {
    public_key: PublicKey,
}

impl View for DalekVerifier {
    type V = Seq<u8>;

    /// The encoded public key this verifier verifies under.
    closed spec fn view(&self) -> Seq<u8> {
        self.public_key@
    }
}

impl DalekVerifier {
    /// Build a verifier from a public key.
    pub fn from_public_key(public_key: PublicKey) -> (r: DalekVerifier)
        ensures
            r@ == public_key@,
    {
        DalekVerifier { public_key }
    }
}

impl Verifier for DalekVerifier {
    /// This provider accepts exactly the signatures that strict Ed25519
    /// verification accepts over the message under its public key.
    open spec fn verified(&self, msg: Seq<u8>, sig: Seq<u8>, r: Result<(), Error>) -> bool {
        r is Ok <==> ed25519_verifies(self@, msg, sig)
    }

    fn verify(&self, msg: &[u8], signature: &Signature) -> (r: Result<(), Error>) {
        proof {
            use_type_invariant(&self.public_key);
            use_type_invariant(&*signature);
        }
        if dalek_verify(self.public_key.to_bytes(), msg, signature.to_bytes()) {
            Ok(())
        } else {
            Err(Error::new(ErrorKind::VerificationFailure))
        }
    }
}

/// What passing the conformance harness means for the software provider: its
/// hypotheses are exactly what [`crate::ed25519::conformance`] ensures on
/// success, and they force the message to sign to exactly `sig` under the
/// signer's seed, `sig` to verify under the verifier's key, and the
/// corrupted copy of `sig` that the harness tried to be rejected.
pub proof fn lemma_conformance_harness(
    signer: DalekSigner,
    verifier: DalekVerifier,
    msg: Seq<u8>,
    sig: Seq<u8>,
)
    requires
        exists|s: Signature| (#[trigger] signer.signed(msg, Result::Ok(s))) && s@ == sig,
        exists|u: Result<(), Error>| (#[trigger] verifier.verified(msg, sig, u)) && u is Ok,
        exists|u: Result<(), Error>|
            (#[trigger] verifier.verified(msg, sig.update(0, sig[0] ^ (1u8 << 0)), u))
                && u is Err,
    ensures
        sig == ed25519_signature(signer@, msg),
        ed25519_verifies(verifier@, msg, sig),
        !ed25519_verifies(verifier@, msg, sig.update(0, sig[0] ^ (1u8 << 0))),
{
    let s = choose|s: Signature| (#[trigger] signer.signed(msg, Result::Ok(s))) && s@ == sig;
    assert(s@ == ed25519_signature(signer@, msg));
    let u = choose|u: Result<(), Error>|
        (#[trigger] verifier.verified(msg, sig, u)) && u is Ok;
    assert(ed25519_verifies(verifier@, msg, sig));
    let w = choose|u: Result<(), Error>|
        (#[trigger] verifier.verified(msg, sig.update(0, sig[0] ^ (1u8 << 0)), u)) && u is Err;
    assert(!ed25519_verifies(verifier@, msg, sig.update(0, sig[0] ^ (1u8 << 0))));
}

/// Cross-provider equivalence for the deterministic scheme: any two
/// signatures stated to be the Ed25519 signature of the same message under
/// the same seed — as the software provider's contract states of its results
/// — are byte-for-byte equal, so each verifies wherever the other does.
pub proof fn lemma_deterministic_signing(seed: Seq<u8>, msg: Seq<u8>, s1: Seq<u8>, s2: Seq<u8>)
    requires
        s1 == ed25519_signature(seed, msg),
        s2 == ed25519_signature(seed, msg),
    ensures
        s1 == s2,
{
}

} // verus!
