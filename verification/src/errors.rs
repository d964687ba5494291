use vstd::prelude::*;

verus! {

/// The kind of a library error.
///
/// The kinds form a small taxonomy: `Certificate` covers credential loading
/// and parsing failures, `CertificateExpired` refines it for expiry-policy
/// failures, and `Sign` and `Verify` are its siblings for the two
/// cryptographic operations. `CertificateExpired` is the only refinement:
/// callers that want to treat every certificate problem alike should test
/// with [`RsmimeError::is_certificate_error`] rather than compare kinds.
#[derive(Clone, Copy, Debug, PartialEq, Eq, Structural)]
pub enum ErrorKind {
    /// The credential could not be read or parsed.
    Certificate,
    /// A signing certificate's validity window has passed.
    /// This kind is a refinement of `Certificate`.
    CertificateExpired,
    /// Signing failed: empty input, or the signature could not be built.
    Sign,
    /// Verification failed: malformed envelope or signature mismatch.
    Verify,
}

/// True for the kinds that count as certificate errors:
/// `Certificate` itself and its refinement `CertificateExpired`.
pub open spec fn is_certificate_kind(kind: ErrorKind) -> bool {
    kind == ErrorKind::Certificate || kind == ErrorKind::CertificateExpired
}

/// An error of this library: a kind tag plus a human-readable message.
///
/// Every failure of the public operations is one of the four kinds; no
/// failure of the underlying cryptography library is surfaced unwrapped,
/// though its diagnostic text is preserved in `message`.
#[derive(Debug)]
pub struct RsmimeError {
    pub kind: ErrorKind,
    pub message: String,
}

impl RsmimeError {
    /// A credential loading or parsing failure.
    pub fn certificate(message: String) -> (r: RsmimeError)
        ensures
            r.kind == ErrorKind::Certificate,
            r.message == message,
    {
        RsmimeError { kind: ErrorKind::Certificate, message }
    }

    /// An expiry-policy failure; also a certificate error.
    pub fn certificate_expired(message: String) -> (r: RsmimeError)
        ensures
            r.kind == ErrorKind::CertificateExpired,
            r.message == message,
    {
        RsmimeError { kind: ErrorKind::CertificateExpired, message }
    }

    /// A signing-time failure.
    pub fn sign_error(message: String) -> (r: RsmimeError)
        ensures
            r.kind == ErrorKind::Sign,
            r.message == message,
    {
        RsmimeError { kind: ErrorKind::Sign, message }
    }

    /// A verification-time failure.
    pub fn verify_error(message: String) -> (r: RsmimeError)
        ensures
            r.kind == ErrorKind::Verify,
            r.message == message,
    {
        RsmimeError { kind: ErrorKind::Verify, message }
    }

    /// The kind tag of this error.
    pub fn kind(&self) -> (r: ErrorKind)
        ensures
            r == self.kind,
    {
        self.kind
    }

    /// The human-readable message of this error.
    pub fn message(&self) -> (r: &str)
        ensures
            r@ == self.message@,
    {
        self.message.as_str()
    }

    /// Whether this error counts as a certificate error: true exactly for
    /// the `Certificate` kind and its refinement `CertificateExpired`.
    pub fn is_certificate_error(&self) -> (r: bool)
        ensures
            r == is_certificate_kind(self.kind),
    {
        self.kind == ErrorKind::Certificate || self.kind == ErrorKind::CertificateExpired
    }
}

/// The taxonomy is a strict tree: `CertificateExpired` is the one kind that
/// also counts as a certificate error besides `Certificate` itself, while
/// `Sign` and `Verify` are siblings outside that branch.
pub proof fn lemma_error_taxonomy_tree()
    ensures
        is_certificate_kind(ErrorKind::Certificate),
        is_certificate_kind(ErrorKind::CertificateExpired),
        !is_certificate_kind(ErrorKind::Sign),
        !is_certificate_kind(ErrorKind::Verify),
{
}

} // verus!
