//! S/MIME (PKCS#7) signing and verification of byte payloads.
//!
//! Given an X.509 certificate and its matching RSA private key, the library
//! produces a signed, optionally detached, S/MIME envelope around a message,
//! and recovers and cryptographically verifies the content of such an
//! envelope, with an optional policy that rejects envelopes whose signing
//! certificate has expired.
//!
//! Verification authenticates the key, not the chain: the signature is
//! checked against the certificate embedded in the envelope with
//! chain-of-trust validation deliberately disabled. Callers that need chain
//! trust must establish it out of band.
//!
//! The cryptographic primitives themselves come from OpenSSL; this crate
//! states how they are driven, in what order, with which flags, and how
//! their failures are classified into the four error kinds of
//! [`errors::ErrorKind`].

pub mod credential;
pub mod errors;
pub mod expiry;
pub mod ossl;
pub mod verification;

pub use credential::Credential;
pub use errors::{ErrorKind, RsmimeError};
pub use expiry::{CertValidity, ExpiryFailure};
pub use verification::verify;
