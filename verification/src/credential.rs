use vstd::prelude::*;
use vstd::string::StringExecFns;
use openssl::pkey::{PKey, Private};
use openssl::x509::X509;

use crate::errors::{ErrorKind, RsmimeError};
use crate::ossl;

verus! {

/// A signing credential: an X.509 certificate, the RSA private key that
/// matches it, and the (always empty) set of additional certificates to
/// embed in signatures. Immutable once constructed; one credential may back
/// any number of independent sign operations.
pub struct Credential {
    cert: X509,
    pkey: PKey<Private>,
    extra_certs: ossl::CertStack,
}

impl Credential {
    /// Builds a credential from a PEM-encoded X.509 certificate and a
    /// PEM-encoded RSA private key.
    ///
    /// Loading succeeds whenever the certificate bytes parse as an
    /// unencrypted certificate PEM and the key bytes parse as an unencrypted
    /// RSA key PEM — an expired certificate included, since no expiry or
    /// chain check is performed here: expiry is enforced only where `verify`
    /// is asked to. Every failure — an unparseable certificate, an
    /// unparseable key, or a key that cannot be wrapped — is reported as a
    /// `Certificate` error carrying the underlying diagnostic text. Each
    /// input must fit OpenSSL's byte-slice limit.
    pub fn from_pem(cert_pem: &[u8], key_pem: &[u8]) -> (r: Result<Credential, RsmimeError>)
        requires
            cert_pem@.len() <= ossl::BIO_INPUT_LIMIT,
            key_pem@.len() <= ossl::BIO_INPUT_LIMIT,
        ensures
            r matches Err(e) ==> e.kind == ErrorKind::Certificate,
            ossl::x509_parses(cert_pem@) && ossl::rsa_parses(key_pem@) ==> r is Ok,
    {
        let extra_certs = match ossl::new_cert_stack() {
            Ok(s) => s,
            Err(msg) => {
                return Err(RsmimeError::certificate(msg));
            },
        };
        let cert = match ossl::x509_from_pem(cert_pem) {
            Ok(c) => c,
            Err(msg) => {
                return Err(RsmimeError::certificate(msg));
            },
        };
        let rsa = match ossl::rsa_private_key_from_pem(key_pem) {
            Ok(k) => k,
            Err(msg) => {
                return Err(RsmimeError::certificate(msg));
            },
        };
        let pkey = match ossl::pkey_from_rsa(rsa) {
            Ok(k) => k,
            Err(msg) => {
                return Err(RsmimeError::certificate(msg));
            },
        };
        Ok(Credential { cert, pkey, extra_certs })
    }

    /// Signs `message`, producing an S/MIME envelope around a PKCS#7
    /// `signedData` structure.
    ///
    /// An empty message is rejected up front with a `Sign` error reading
    /// "Cannot sign empty data", before any cryptographic work. With
    /// `detached` false the envelope embeds the content; with `detached`
    /// true it carries the signature over content that travels in the
    /// multipart framing instead, and the same flag is passed to both the
    /// PKCS#7 construction and the S/MIME serialization so the content
    /// handling stays consistent. Any failure of either step is reported as
    /// a `Sign` error with the underlying diagnostic text; a produced
    /// envelope is well-formed S/MIME, bytes the envelope parser accepts.
    /// The message must fit OpenSSL's byte-slice limit.
    pub fn sign(&self, message: &[u8], detached: bool) -> (r: Result<Vec<u8>, RsmimeError>)
        requires
            message@.len() <= ossl::BIO_INPUT_LIMIT,
        ensures
            r matches Err(e) ==> e.kind == ErrorKind::Sign,
            message@.len() == 0 ==> (r matches Err(e) && e.message@ == "Cannot sign empty data"@),
            r matches Ok(envelope) ==> ossl::smime_parses(envelope@),
    {
        if message.len() == 0 {
            return Err(RsmimeError::sign_error(String::from_str("Cannot sign empty data")));
        }
        let pkcs7 = match ossl::pkcs7_sign(
            &self.cert,
            &self.pkey,
            &self.extra_certs,
            message,
            detached,
        ) {
            Ok(p) => p,
            Err(msg) => {
                return Err(RsmimeError::sign_error(msg));
            },
        };
        match ossl::pkcs7_to_smime(&pkcs7, message, detached) {
            Ok(envelope) => Ok(envelope),
            Err(msg) => Err(RsmimeError::sign_error(msg)),
        }
    }
}

} // verus!
