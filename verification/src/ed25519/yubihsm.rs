//! Hardware Ed25519 provider backed by a YubiHSM2 module.
//!
//! The module is reached over a session-oriented connector protocol owned by
//! an external collaborator; this layer consumes it through the narrow
//! [`HsmTransport`] interface and never sees key material — the key lives in
//! the module and is addressed by a numeric identifier scoped to numeric
//! domains. The lifecycle is driven here: a connector is created and
//! connected, a session is authenticated, and only then does a [`Session`]
//! value exist; a signer exists only around a session. Every transport,
//! authentication or module-side rejection is wrapped as a provider failure;
//! nothing here retries or reconnects, so a broken session surfaces
//! immediately and recovery is the caller's responsibility.

use vstd::prelude::*;

use crate::ed25519::SIGNATURE_SIZE;
use crate::ed25519::Signature;
use crate::ed25519::Signer;
use crate::error::Error;
use crate::error::ErrorKind;
use crate::error::wrap_provider_failure;

verus! {

/// Numeric identifier of a key stored on the module.
pub type KeyID = u16;

/// Numeric domain identifier; the module accepts domains 1 through 16.
pub type DomainNumber = u8;

/// Smallest domain number the module accepts.
pub const MIN_DOMAIN: u8 = 1;

/// Largest domain number the module accepts.
pub const MAX_DOMAIN: u8 = 16;

/// The connector collaborator's narrow interface: create a connector to a
/// URL-form endpoint, connect it, authenticate a session with an auth-key
/// identifier and password, provision a signing key (with signing and
/// export-under-wrap capabilities) scoped to a domain, and sign a message
/// under a key identifier. Each call reports failure as the backend's own
/// diagnostic text; this layer maps every failure into its error taxonomy
/// and never lets a raw backend error cross the boundary.
pub trait HsmTransport {
    /// Create a connector to the module at the given endpoint.
    fn create_connector(&mut self, connector_url: &str) -> Result<(), String>;

    /// Connect the previously created connector.
    fn connect(&mut self) -> Result<(), String>;

    /// Open an authenticated session with the given auth key and password.
    fn open_session(&mut self, auth_key_id: KeyID, password: &str) -> Result<(), String>;

    /// Generate an Ed25519 signing key under the given identifier and label,
    /// scoped to the given domain, with signing and export-under-wrap
    /// capabilities.
    fn generate_signing_key(
        &mut self,
        signing_key_id: KeyID,
        label: &str,
        domain_number: DomainNumber,
    ) -> Result<(), String>;

    /// Sign a message under the key with the given identifier, returning the
    /// raw signature bytes the module produced.
    fn sign_eddsa(&self, signing_key_id: KeyID, msg: &[u8]) -> Result<Vec<u8>, String>;
}

/// An authenticated session with the module. A value of this type exists
/// only after the connector was created, connected, and the session
/// authenticated; a failed step never yields a session.
pub struct Session<T> {
    transport: T,
    auth_key_id: KeyID,
}

impl<T> Session<T> {
    /// The identifier of the auth key this session was established with.
    pub closed spec fn auth_key_id(&self) -> KeyID {
        self.auth_key_id
    }
}

/// Create a new authenticated session with the module: create the connector,
/// connect it, then authenticate. Any failing step surfaces as a provider
/// failure carrying the backend's diagnostic; a returned session always
/// carries the auth-key identifier it was established with.
pub fn session<T: HsmTransport>(
    transport: T,
    connector_url: &str,
    auth_key_id: KeyID,
    password: &str,
) -> (r: Result<Session<T>, Error>)
    ensures
        r matches Ok(s) ==> s.auth_key_id() == auth_key_id,
        r matches Err(e) ==> e.kind == ErrorKind::ProviderFailure && e.cause is Some,
{
    let mut transport = transport;
    match wrap_provider_failure(transport.create_connector(connector_url)) {
        Ok(()) => (),
        Err(e) => {
            return Err(e);
        },
    }
    match wrap_provider_failure(transport.connect()) {
        Ok(()) => (),
        Err(e) => {
            return Err(e);
        },
    }
    match wrap_provider_failure(transport.open_session(auth_key_id, password)) {
        Ok(()) => (),
        Err(e) => {
            return Err(e);
        },
    }
    Ok(Session { transport, auth_key_id })
}

/// Generate a new Ed25519 key on the module, scoped to one numeric domain.
/// A domain number outside 1–16 is a caller-contract violation and is
/// rejected as invalid input before the module is involved; on an in-range
/// domain the only possible failure is the module's own rejection, surfaced
/// as a provider failure with the backend's diagnostic chained as its cause.
pub fn generate_key<T: HsmTransport>(
    session: Session<T>,
    signing_key_id: KeyID,
    label: &str,
    domain_number: DomainNumber,
) -> (r: Result<(), Error>)
    ensures
        !(MIN_DOMAIN <= domain_number <= MAX_DOMAIN) ==> (r matches Err(e) && e.kind
            == ErrorKind::InvalidInput),
        r is Ok ==> MIN_DOMAIN <= domain_number <= MAX_DOMAIN,
        MIN_DOMAIN <= domain_number <= MAX_DOMAIN ==> (r matches Err(e) ==> e.kind
            == ErrorKind::ProviderFailure && e.cause is Some),
        r matches Err(e) ==> (e.kind == ErrorKind::InvalidInput || e.kind
            == ErrorKind::ProviderFailure),
{
    if domain_number < MIN_DOMAIN || domain_number > MAX_DOMAIN {
        return Err(Error::new(ErrorKind::InvalidInput));
    }
    let mut session = session;
    wrap_provider_failure(session.transport.generate_signing_key(
        signing_key_id,
        label,
        domain_number,
    ))
}

/// Hardware Ed25519 signature provider: a thin capability-restricted handle
/// holding an authenticated session and the numeric identifier of the
/// module-resident signing key. The key material itself never leaves the
/// module.
pub struct YubihsmSigner<T> {
    session: Session<T>,
    key_id: KeyID,
}

impl<T> YubihsmSigner<T> {
    /// The identifier of the module-resident key this signer signs under.
    pub closed spec fn key_id(&self) -> KeyID {
        self.key_id
    }

    /// The identifier of the auth key of the underlying session.
    pub closed spec fn auth_key_id(&self) -> KeyID {
        self.session.auth_key_id()
    }
}

impl<T: HsmTransport> YubihsmSigner<T> {
    /// Create a signer by establishing a fresh session: any failure on the
    /// way is a provider failure.
    pub fn new(
        transport: T,
        connector_url: &str,
        auth_key_id: KeyID,
        signing_key_id: KeyID,
        password: &str,
    ) -> (r: Result<YubihsmSigner<T>, Error>)
        ensures
            r matches Ok(s) ==> s.key_id() == signing_key_id && s.auth_key_id() == auth_key_id,
            r matches Err(e) ==> e.kind == ErrorKind::ProviderFailure && e.cause is Some,
    {
        let s = match session(transport, connector_url, auth_key_id, password) {
            Ok(s) => s,
            Err(e) => {
                return Err(e);
            },
        };
        Ok(Self::from_session(s, signing_key_id))
    }

    /// Create a signer around an already-established session.
    pub fn from_session(session: Session<T>, signing_key_id: KeyID) -> (r: YubihsmSigner<T>)
        ensures
            r.key_id() == signing_key_id,
            r.auth_key_id() == session.auth_key_id(),
    {
        YubihsmSigner { session, key_id: signing_key_id }
    }
}

impl<T: HsmTransport> Signer for YubihsmSigner<T> {
    /// Whatever the module returned: on success the signature holds the
    /// module's bytes, necessarily of the algorithm's fixed size; a
    /// transport or module failure is a provider failure, and a malformed
    /// reply — raw bytes of the wrong length — is a format failure, never a
    /// panic.
    open spec fn signed(&self, msg: Seq<u8>, r: Result<Signature, Error>) -> bool {
        match r {
            Ok(s) => s@.len() == SIGNATURE_SIZE,
            Err(e) => {
                &&& (e.kind == ErrorKind::ProviderFailure || e.kind == ErrorKind::FormatFailure)
                &&& (e.kind == ErrorKind::ProviderFailure ==> e.cause is Some)
            },
        }
    }

    fn sign(&self, msg: &[u8]) -> (r: Result<Signature, Error>) {
        let raw = match wrap_provider_failure(self.session.transport.sign_eddsa(
            self.key_id,
            msg,
        )) {
            Ok(bytes) => bytes,
            Err(e) => {
                return Err(e);
            },
        };
        Signature::from_bytes(raw.as_slice())
    }
}

} // verus!
