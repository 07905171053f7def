//! Error model: every fallible operation in this layer returns an [`Error`]
//! carrying one of a small closed set of [`ErrorKind`]s, so that callers can
//! write backend-independent failure handling. Backend-specific failures are
//! mapped to exactly one kind at the provider-adapter boundary; the original
//! diagnostic may be retained as a chained cause, which never changes the
//! caller-visible classification.

use vstd::prelude::*;

verus! {

/// Coarse classification of a failure.
#[derive(Clone, Copy, Debug, PartialEq, Eq, Structural)]
pub enum ErrorKind {
    /// Backend or infrastructure failure: network, session, authentication,
    /// or a rejection by the signing module itself.
    ProviderFailure,
    /// Malformed byte encoding of a key or signature: wrong length or an
    /// invalid curve-point encoding.
    FormatFailure,
    /// Caller-contract violation: semantically invalid arguments, such as an
    /// unsupported domain number.
    InvalidInput,
    /// Cryptographic rejection of a signature; deliberately undifferentiated
    /// from other causes of rejection so no oracle is leaked.
    VerificationFailure,
}

/// A failure of this layer: a kind plus an optional chained cause from the
/// originating backend, kept for diagnostics only.
#[derive(Debug)]
pub struct Error {
    /// The caller-visible classification.
    pub kind: ErrorKind,
    /// The underlying backend diagnostic, if any.
    pub cause: Option<String>,
}

impl Error {
    /// Build an error of the given kind with no chained cause.
    pub fn new(kind: ErrorKind) -> (r: Error)
        ensures
            r.kind == kind,
            r.cause is None,
    {
        Error { kind, cause: None }
    }

    /// Build an error of the given kind, chaining the backend's diagnostic.
    pub fn with_cause(kind: ErrorKind, cause: String) -> (r: Error)
        ensures
            r.kind == kind,
            r.cause == Some(cause),
    {
        Error { kind, cause: Some(cause) }
    }

    /// The caller-visible classification of this error.
    pub fn kind(&self) -> (r: ErrorKind)
        ensures
            r == self.kind,
    {
        self.kind
    }
}

/// Adapt a backend outcome at the provider boundary: a success passes through
/// unchanged, and any backend failure is wrapped as a provider failure with
/// the backend's diagnostic retained as the chained cause.
pub fn wrap_provider_failure<A>(outcome: Result<A, String>) -> (r: Result<A, Error>)
    ensures
        match outcome {
            Ok(a) => (r matches Ok(b) && b == a),
            Err(m) => (r matches Err(e) && e.kind == ErrorKind::ProviderFailure && e.cause == Some(
                m,
            )),
        },
{
    match outcome {
        Ok(a) => Ok(a),
        Err(m) => Err(Error::with_cause(ErrorKind::ProviderFailure, m)),
    }
}

} // verus!
