use vstd::prelude::*;
use vstd::string::StringExecFns;

use crate::errors::{ErrorKind, RsmimeError};
use crate::expiry;
use crate::expiry::{CertValidity, ExpiryFailure};
use crate::ossl;

verus! {

/// Verifies an S/MIME envelope and returns the signed content.
///
/// When `enforce_expiry` is true, the envelope is first parsed and the
/// signer certificates embedded in its PKCS#7 structure are checked against
/// the current wall-clock time, in extraction order and failing on the
/// first expired one, strictly before the signature check — so an
/// expired-but-otherwise-valid signature is still rejected, with a
/// `CertificateExpired` error naming that certificate and its expiry time.
/// The cryptographic check then authenticates the content against the key
/// of the embedded certificate; chain-of-trust validation is deliberately
/// disabled, so a trusted chain must be established out of band. An
/// envelope that does not parse, and one whose signature does not check
/// out, is a `Verify` error.
///
/// Every failure is one of those two kinds; an envelope that does not parse
/// as S/MIME always fails with a `Verify` error, never `CertificateExpired`;
/// a `CertificateExpired` error can only arise when `enforce_expiry` was
/// requested, with a message naming a certificate and its expiry time.
/// Success returns exactly the content the signature check recovers, and
/// without the expiry policy it comes exactly when the check accepts the
/// envelope. The envelope must fit OpenSSL's byte-slice limit.
pub fn verify(envelope: &[u8], enforce_expiry: bool) -> (r: Result<Vec<u8>, RsmimeError>)
    requires
        envelope@.len() <= ossl::BIO_INPUT_LIMIT,
    ensures
        r matches Err(e) ==> (e.kind == ErrorKind::Verify || e.kind
            == ErrorKind::CertificateExpired),
        (r matches Err(e) && e.kind == ErrorKind::CertificateExpired) ==> enforce_expiry,
        !ossl::smime_parses(envelope@) ==> (r matches Err(e) && e.kind == ErrorKind::Verify),
        r matches Err(e) ==> (e.kind == ErrorKind::CertificateExpired
            ==> expiry::is_expiry_message(e.message@)),
        !enforce_expiry ==> (r is Ok <==> ossl::smime_verifies(envelope@)),
        r is Ok ==> ossl::smime_verifies(envelope@),
        r matches Ok(content) ==> content@ == ossl::smime_content(envelope@),
{
    if enforce_expiry {
        let (pkcs7, _indata) = match ossl::pkcs7_from_smime(envelope) {
            Ok(parsed) => parsed,
            Err(msg) => {
                return Err(RsmimeError::verify_error(msg));
            },
        };
        let certs = match ossl::new_cert_stack() {
            Ok(c) => c,
            Err(msg) => {
                return Err(RsmimeError::verify_error(msg));
            },
        };
        let signers = match ossl::pkcs7_signers(&pkcs7, &certs) {
            Ok(s) => s,
            Err(msg) => {
                return Err(RsmimeError::verify_error(msg));
            },
        };
        let now_secs = match ossl::now_epoch_parts() {
            Ok((days, secs)) => expiry::total_secs(days, secs),
            Err(msg) => {
                return Err(RsmimeError::verify_error(msg));
            },
        };
        let mut i: usize = 0;
        while i < signers.len()
            invariant
                0 <= i <= signers@.len(),
                enforce_expiry,
                ossl::smime_parses(envelope@),
            decreases signers@.len() - i,
        {
            let subject_cn = match ossl::subject_common_name(&signers[i]) {
                Some(cn) => cn,
                None => String::from_str("unknown"),
            };
            let (days, secs) = match ossl::not_after_epoch_parts(&signers[i]) {
                Ok(parts) => parts,
                Err(msg) => {
                    return Err(RsmimeError::verify_error(msg));
                },
            };
            let validity = CertValidity {
                subject_cn,
                not_after_repr: ossl::not_after_display(&signers[i]),
                not_after_secs: expiry::total_secs(days, secs),
            };
            if validity.not_after_secs <= now_secs {
                let failure = ExpiryFailure {
                    subject_cn: validity.subject_cn,
                    expired_at: validity.not_after_repr,
                };
                return Err(RsmimeError::certificate_expired(expiry::expiry_message(&failure)));
            }
            i = i + 1;
        }
    }
    match ossl::smime_verify(envelope) {
        Ok(content) => Ok(content),
        Err(msg) => Err(RsmimeError::verify_error(msg)),
    }
}

} // verus!
