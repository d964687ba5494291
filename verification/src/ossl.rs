//! Trusted boundary to OpenSSL.
//!
//! Every cryptographic primitive this library drives — PEM parsing, PKCS#7
//! construction, S/MIME framing, signature verification, certificate field
//! access — lives behind the declarations and wrappers of this module. The
//! verifier believes their contracts; each doc comment names the OpenSSL
//! item relied on. The contracts state only what the OpenSSL sources show:
//! the parsers succeed at least on the bytes that the parse predicates
//! below name, the signature check's verdict is a function of the envelope
//! bytes alone, and nothing promises that a signing call succeeds. Every
//! wrapper that hands a byte slice to OpenSSL requires it no longer than
//! `BIO_INPUT_LIMIT`: OpenSSL's memory BIO wrapper asserts that bound and
//! would panic past it.

use vstd::prelude::*;
use openssl::asn1::Asn1Time;
use openssl::nid::Nid;
use openssl::pkcs7::{Pkcs7, Pkcs7Flags};
use openssl::pkey::{PKey, Private};
use openssl::rsa::Rsa;
use openssl::stack::Stack;
use openssl::x509::store::X509StoreBuilder;
use openssl::x509::X509;

verus! {

/// The largest byte slice OpenSSL's memory BIO accepts (`c_int::MAX`):
/// `MemBioSlice::new` asserts this bound and panics past it, so every
/// wrapper handing bytes to OpenSSL requires it, and so do the public
/// functions that feed them.
pub const BIO_INPUT_LIMIT: usize = 0x7FFF_FFFF;

/// Whether `X509::from_pem` accepts these bytes as an unencrypted
/// PEM-encoded X.509 certificate. For such bytes the parse reads nothing
/// but them; a PEM block with encryption headers falls to OpenSSL's default
/// passphrase handling, whose outcome can depend on the environment, so the
/// wrapper below promises only that bytes satisfying this predicate parse.
pub uninterp spec fn x509_parses(pem: Seq<u8>) -> bool;

/// Whether `Rsa::private_key_from_pem` accepts these bytes as an
/// unencrypted PEM-encoded RSA private key. For an unencrypted key the
/// parse is a function of the bytes alone; a passphrase-encrypted key falls
/// to OpenSSL's default passphrase handling, whose outcome can depend on
/// the environment, so the wrapper below promises only that bytes
/// satisfying this predicate parse.
pub uninterp spec fn rsa_parses(pem: Seq<u8>) -> bool;

/// Whether `Pkcs7::from_smime` accepts these bytes as an S/MIME message.
/// The parse reads nothing but the bytes, so its outcome is a function of
/// them alone.
pub uninterp spec fn smime_parses(envelope: Seq<u8>) -> bool;

/// Whether the signature check accepts these bytes as an S/MIME envelope:
/// they parse, and the content authenticates against the key of the
/// certificate embedded in them. With chain-of-trust validation disabled
/// the check consults no clock, no trust store and no randomness, so its
/// verdict is a function of the bytes alone.
pub uninterp spec fn smime_verifies(envelope: Seq<u8>) -> bool;

/// The content the signature check recovers from an envelope it accepts —
/// a function of the bytes alone, for the same reason as `smime_verifies`.
pub uninterp spec fn smime_content(envelope: Seq<u8>) -> Seq<u8>;

#[verifier::external_type_specification]
#[verifier::external_body]
pub struct ExX509(X509);

#[verifier::external_type_specification]
#[verifier::external_body]
pub struct ExPkcs7(Pkcs7);

#[verifier::external_type_specification]
#[verifier::external_body]
pub struct ExPrivate(Private);

#[verifier::external_type_specification]
#[verifier::external_body]
#[verifier::reject_recursive_types(T)]
pub struct ExPKey<T>(PKey<T>);

#[verifier::external_type_specification]
#[verifier::external_body]
#[verifier::reject_recursive_types(T)]
pub struct ExRsa<T>(Rsa<T>);

/// An owned, empty stack of certificates: the "additional certificates"
/// argument that PKCS#7 signing embeds and verification consults, which this
/// library always leaves empty. The underlying `openssl::stack::Stack<X509>`
/// cannot be declared to the verifier (its `Stackable` bound is refused), so
/// it is held opaquely here; nothing is ever put into it.
#[verifier::external_body]
pub struct CertStack {
    inner: Stack<X509>,
}

/// Relies on `X509::from_pem`: parses a PEM-encoded X.509 certificate.
/// Bytes that `x509_parses` names — an unencrypted certificate PEM — always
/// parse; no more is promised, because an encryption-headed PEM block
/// reaches OpenSSL's default passphrase handling and its outcome is not a
/// function of the bytes alone.
#[verifier::external_body]
pub(crate) fn x509_from_pem(pem: &[u8]) -> (r: Result<X509, String>)
    requires
        pem@.len() <= BIO_INPUT_LIMIT,
    ensures
        x509_parses(pem@) ==> r is Ok,
{
    X509::from_pem(pem).map_err(|err| err.to_string())
}

/// Relies on `Rsa::private_key_from_pem`: parses a PEM-encoded RSA private
/// key. Bytes that `rsa_parses` names — an unencrypted RSA key PEM — always
/// parse; no more is promised, because an encrypted key PEM reaches
/// OpenSSL's default passphrase handling and its outcome is not a function
/// of the bytes alone.
#[verifier::external_body]
pub(crate) fn rsa_private_key_from_pem(pem: &[u8]) -> (r: Result<Rsa<Private>, String>)
    requires
        pem@.len() <= BIO_INPUT_LIMIT,
    ensures
        rsa_parses(pem@) ==> r is Ok,
{
    Rsa::private_key_from_pem(pem).map_err(|err| err.to_string())
}

/// Relies on `PKey::from_rsa` (`EVP_PKEY_assign_RSA`): wraps an RSA key in
/// the generic key container. The wrapping can fail only when OpenSSL
/// cannot allocate the container, which is relied on to succeed.
#[verifier::external_body]
pub(crate) fn pkey_from_rsa(rsa: Rsa<Private>) -> (r: Result<PKey<Private>, String>)
    ensures
        r is Ok,
{
    PKey::from_rsa(rsa).map_err(|err| err.to_string())
}

/// Relies on `Stack::new` (`OPENSSL_sk_new_null`): an empty certificate
/// stack. Creation can fail only when OpenSSL cannot allocate the stack,
/// which is relied on to succeed.
#[verifier::external_body]
pub(crate) fn new_cert_stack() -> (r: Result<CertStack, String>)
    ensures
        r is Ok,
{
    let inner = Stack::new().map_err(|err| err.to_string())?;
    Ok(CertStack { inner })
}

/// Relies on `Pkcs7::sign` (`PKCS7_sign`): builds a PKCS#7 `signedData`
/// structure over `message` with the given certificate, private key and
/// additional certificates to embed. When `detached` is true the structure
/// is built with the `DETACHED` flag and does not embed the content;
/// otherwise no flags are passed.
#[verifier::external_body]
pub(crate) fn pkcs7_sign(
    cert: &X509,
    pkey: &PKey<Private>,
    extra_certs: &CertStack,
    message: &[u8],
    detached: bool,
) -> (r: Result<Pkcs7, String>)
    requires
        message@.len() <= BIO_INPUT_LIMIT,
{
    let flags = if detached {
        Pkcs7Flags::DETACHED
    } else {
        Pkcs7Flags::empty()
    };
    Pkcs7::sign(cert, pkey, &extra_certs.inner, message, flags).map_err(|err| err.to_string())
}

/// Relies on `Pkcs7Ref::to_smime` (`SMIME_write_PKCS7`): serializes the
/// PKCS#7 structure into S/MIME framing. The `detached` flag must match the
/// one the structure was signed with so that the content handling stays
/// consistent between signing and verification. What `SMIME_write_PKCS7`
/// produces is the framing `SMIME_read_PKCS7` reads, so a serialized
/// envelope parses.
#[verifier::external_body]
pub(crate) fn pkcs7_to_smime(pkcs7: &Pkcs7, message: &[u8], detached: bool) -> (r: Result<
    Vec<u8>,
    String,
>)
    requires
        message@.len() <= BIO_INPUT_LIMIT,
    ensures
        r matches Ok(envelope) ==> smime_parses(envelope@),
{
    let flags = if detached {
        Pkcs7Flags::DETACHED
    } else {
        Pkcs7Flags::empty()
    };
    pkcs7.to_smime(message, flags).map_err(|err| err.to_string())
}

/// Relies on `Pkcs7::from_smime` (`SMIME_read_PKCS7`): parses an S/MIME
/// message into its PKCS#7 structure and, when the framing carries the
/// content outside the structure, that cleartext content. The parse
/// succeeds exactly on the bytes that `smime_parses` names.
#[verifier::external_body]
pub(crate) fn pkcs7_from_smime(envelope: &[u8]) -> (r: Result<
    (Pkcs7, Option<Vec<u8>>),
    String,
>)
    requires
        envelope@.len() <= BIO_INPUT_LIMIT,
    ensures
        r is Ok <==> smime_parses(envelope@),
{
    Pkcs7::from_smime(envelope).map_err(|err| err.to_string())
}

/// Relies on `Pkcs7Ref::signers` (`PKCS7_get0_signers`): the signer
/// certificates of the structure, without verifying them, each handed out
/// as an owned certificate.
#[verifier::external_body]
pub(crate) fn pkcs7_signers(pkcs7: &Pkcs7, certs: &CertStack) -> (r: Result<
    Vec<X509>,
    String,
>) {
    let signers = pkcs7.signers(&certs.inner, Pkcs7Flags::empty()).map_err(|err| err.to_string())?;
    Ok(signers.iter().map(|cert| cert.to_owned()).collect())
}

/// Relies on `Pkcs7::from_smime` (`SMIME_read_PKCS7`) followed by
/// `Pkcs7Ref::verify` (`PKCS7_verify`) with the `NOVERIFY` flag: parses the
/// envelope, checks the signature against the certificate embedded in it,
/// and returns the recovered content. The two calls stand in one trusted
/// item because only taken together is the verdict a function of the
/// envelope bytes alone, which `smime_verifies` and `smime_content` name.
/// `NOVERIFY` disables chain-of-trust validation, deliberately: the empty
/// store handed in is never consulted, and only the signing key is
/// authenticated. For a detached envelope the content arrives as the
/// cleartext part of the parse, which cannot exceed the envelope, so the
/// input bound covers it. The empty stack and store, like the other
/// allocation-only constructors here, are relied on to allocate.
#[verifier::external_body]
pub(crate) fn smime_verify(envelope: &[u8]) -> (r: Result<Vec<u8>, String>)
    requires
        envelope@.len() <= BIO_INPUT_LIMIT,
    ensures
        r is Ok <==> smime_verifies(envelope@),
        r is Ok ==> smime_parses(envelope@),
        r matches Ok(content) ==> content@ == smime_content(envelope@),
{
    let (pkcs7, indata) = Pkcs7::from_smime(envelope).map_err(|err| err.to_string())?;
    let certs: Stack<X509> = Stack::new().map_err(|err| err.to_string())?;
    let store = X509StoreBuilder::new().map_err(|err| err.to_string())?.build();
    let mut out: Vec<u8> = Vec::new();
    pkcs7
        .verify(&certs, &store, indata.as_deref(), Some(&mut out), Pkcs7Flags::NOVERIFY)
        .map_err(|err| err.to_string())?;
    Ok(out)
}

/// Relies on `X509NameRef::entries_by_nid` and `Asn1StringRef::to_string`:
/// the certificate's first subject Common Name entry as text (invalid
/// UTF-8 replaced), or `None` when the subject has no such entry or the
/// conversion fails.
#[verifier::external_body]
pub(crate) fn subject_common_name(cert: &X509) -> (r: Option<String>) {
    let entry = cert.subject_name().entries_by_nid(Nid::COMMONNAME).next()?;
    entry.data().to_string().ok()
}

/// Relies on `X509Ref::not_after`, `Asn1Time::from_unix` and
/// `Asn1TimeRef::diff`: the time from the Unix epoch to the certificate's
/// "not valid after" timestamp, as whole days plus leftover seconds. The
/// value is negative for timestamps before the epoch.
#[verifier::external_body]
pub(crate) fn not_after_epoch_parts(cert: &X509) -> (r: Result<(i32, i32), String>) {
    let epoch = Asn1Time::from_unix(0).map_err(|err| err.to_string())?;
    let diff = epoch.diff(cert.not_after()).map_err(|err| err.to_string())?;
    Ok((diff.days, diff.secs))
}

/// Relies on the `Display` of `Asn1TimeRef`: the certificate's "not valid
/// after" timestamp as human-readable text.
#[verifier::external_body]
pub(crate) fn not_after_display(cert: &X509) -> (r: String) {
    cert.not_after().to_string()
}

/// Relies on `Asn1Time::days_from_now`, `Asn1Time::from_unix` and
/// `Asn1TimeRef::diff`: the current wall-clock time as whole days plus
/// leftover seconds since the Unix epoch. The value depends on when the
/// call runs; nothing is promised of it.
#[verifier::external_body]
pub(crate) fn now_epoch_parts() -> (r: Result<(i32, i32), String>) {
    let epoch = Asn1Time::from_unix(0).map_err(|err| err.to_string())?;
    let now = Asn1Time::days_from_now(0).map_err(|err| err.to_string())?;
    let diff = epoch.diff(&now).map_err(|err| err.to_string())?;
    Ok((diff.days, diff.secs))
}

} // verus!
