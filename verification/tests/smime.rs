use openssl::asn1::Asn1Time;
use openssl::hash::MessageDigest;
use openssl::nid::Nid;
use openssl::pkey::PKey;
use openssl::rsa::Rsa;
use openssl::x509::{X509, X509NameBuilder};

use rsmime::{verify, Credential, ErrorKind};

/// Builds a self-signed certificate and its RSA key, both PEM-encoded.
/// `not_before_unix` and `not_after_unix` are seconds since the Unix epoch.
fn make_pem_pair(cn: &str, not_before_unix: i64, not_after_unix: i64) -> (Vec<u8>, Vec<u8>) {
    let rsa = Rsa::generate(2048).unwrap();
    let key_pem = rsa.private_key_to_pem().unwrap();
    let pkey = PKey::from_rsa(rsa).unwrap();

    let mut name = X509NameBuilder::new().unwrap();
    name.append_entry_by_nid(Nid::COMMONNAME, cn).unwrap();
    let name = name.build();

    let mut builder = X509::builder().unwrap();
    builder.set_version(2).unwrap();
    builder.set_subject_name(&name).unwrap();
    builder.set_issuer_name(&name).unwrap();
    builder.set_pubkey(&pkey).unwrap();
    builder
        .set_not_before(&Asn1Time::from_unix(not_before_unix).unwrap())
        .unwrap();
    builder
        .set_not_after(&Asn1Time::from_unix(not_after_unix).unwrap())
        .unwrap();
    builder.sign(&pkey, MessageDigest::sha256()).unwrap();
    let cert_pem = builder.build().to_pem().unwrap();

    (cert_pem, key_pem)
}

fn now_unix() -> i64 {
    let epoch = Asn1Time::from_unix(0).unwrap();
    let now = Asn1Time::days_from_now(0).unwrap();
    let diff = epoch.diff(&now).unwrap();
    (diff.days as i64) * 86400 + (diff.secs as i64)
}

/// A credential whose certificate is valid for another year.
fn fresh_credential(cn: &str) -> Credential {
    let now = now_unix();
    let (cert_pem, key_pem) = make_pem_pair(cn, now - 3600, now + 365 * 86400);
    Credential::from_pem(&cert_pem, &key_pem).unwrap()
}

/// A credential whose certificate expired well in the past.
fn expired_credential(cn: &str) -> Credential {
    let now = now_unix();
    let (cert_pem, key_pem) = make_pem_pair(cn, now - 30 * 86400, now - 86400);
    Credential::from_pem(&cert_pem, &key_pem).unwrap()
}

/// Flips one character in the middle of the longest base64-looking line of
/// the envelope: that line belongs to the PKCS#7 block.
fn corrupt_signature_block(envelope: &[u8]) -> Vec<u8> {
    let text = String::from_utf8(envelope.to_vec()).unwrap();
    let mut best_start: usize = 0;
    let mut best_len: usize = 0;
    let mut offset: usize = 0;
    for line in text.split('\n') {
        let trimmed = line.trim_end_matches('\r');
        let is_base64 = !trimmed.is_empty()
            && trimmed
                .bytes()
                .all(|b| b.is_ascii_alphanumeric() || b == b'+' || b == b'/' || b == b'=');
        if is_base64 && trimmed.len() > best_len {
            best_len = trimmed.len();
            best_start = offset;
        }
        offset += line.len() + 1;
    }
    assert!(best_len > 20, "no base64 line found in envelope");
    let mut out = envelope.to_vec();
    let pos = best_start + best_len / 2;
    out[pos] = if out[pos] == b'A' { b'B' } else { b'A' };
    out
}

#[test]
fn round_trip_non_detached() {
    let cred = fresh_credential("roundtrip");
    let message = b"hello smime world".to_vec();
    let envelope = cred.sign(&message, false).unwrap();
    let recovered = verify(&envelope, false).unwrap();
    assert_eq!(recovered, message);
}

#[test]
fn round_trip_detached() {
    let cred = fresh_credential("detached");
    let message = b"content that travels alongside the signature".to_vec();
    let envelope = cred.sign(&message, true).unwrap();
    // The multipart framing carries the content in cleartext.
    let text = String::from_utf8(envelope.clone()).unwrap();
    assert!(text.contains("content that travels alongside the signature"));
    let recovered = verify(&envelope, false).unwrap();
    assert_eq!(recovered, message);
}

#[test]
fn detached_content_mismatch_fails() {
    let cred = fresh_credential("detached-tamper");
    let message = b"the original detached content".to_vec();
    let envelope = cred.sign(&message, true).unwrap();
    // Presenting different content alongside the same signature must fail.
    let text = String::from_utf8(envelope).unwrap();
    let tampered = text.replace("the original detached content", "a different detached content");
    let err = verify(tampered.as_bytes(), false).unwrap_err();
    assert_eq!(err.kind(), ErrorKind::Verify);
}

#[test]
fn empty_message_rejected() {
    let cred = fresh_credential("empty");
    let err = cred.sign(&[], false).unwrap_err();
    assert_eq!(err.kind(), ErrorKind::Sign);
    assert_eq!(err.message(), "Cannot sign empty data");
    let err_detached = cred.sign(&[], true).unwrap_err();
    assert_eq!(err_detached.kind(), ErrorKind::Sign);
}

#[test]
fn tampered_signature_block_fails() {
    let cred = fresh_credential("tamper");
    let message = b"bytes under protection".to_vec();
    let envelope = cred.sign(&message, false).unwrap();
    let tampered = corrupt_signature_block(&envelope);
    let err = verify(&tampered, false).unwrap_err();
    assert_eq!(err.kind(), ErrorKind::Verify);
}

#[test]
fn expiry_gate() {
    let cred = expired_credential("stale-signer");
    let message = b"signed with an expired certificate".to_vec();
    let envelope = cred.sign(&message, false).unwrap();

    // Without the policy the signature itself still verifies.
    let recovered = verify(&envelope, false).unwrap();
    assert_eq!(recovered, message);

    // With the policy the envelope is rejected before the signature check,
    // with a message naming the certificate.
    let err = verify(&envelope, true).unwrap_err();
    assert_eq!(err.kind(), ErrorKind::CertificateExpired);
    assert!(err.is_certificate_error());
    assert!(err.message().contains("Certificate stale-signer expired"));
}

#[test]
fn fresh_certificate_passes_expiry_gate() {
    let cred = fresh_credential("fresh-signer");
    let message = b"signed with a fresh certificate".to_vec();
    let envelope = cred.sign(&message, false).unwrap();
    let recovered = verify(&envelope, true).unwrap();
    assert_eq!(recovered, message);
}

#[test]
fn malformed_envelope_fails() {
    let err = verify(b"not an smime message", false).unwrap_err();
    assert_eq!(err.kind(), ErrorKind::Verify);
    let err_with_policy = verify(b"not an smime message", true).unwrap_err();
    assert_eq!(err_with_policy.kind(), ErrorKind::Verify);
}

#[test]
fn bad_pem_rejected() {
    let err = Credential::from_pem(b"not a certificate", b"not a key").err().unwrap();
    assert_eq!(err.kind(), ErrorKind::Certificate);
    assert!(err.is_certificate_error());

    let cred = fresh_credential("goodcert");
    let message = b"x".to_vec();
    assert!(cred.sign(&message, false).is_ok());

    let now = now_unix();
    let (cert_pem, _) = make_pem_pair("goodcert", now - 3600, now + 3600);
    let err = Credential::from_pem(&cert_pem, b"garbage key").err().unwrap();
    assert_eq!(err.kind(), ErrorKind::Certificate);
}
