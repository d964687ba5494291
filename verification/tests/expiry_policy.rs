use rsmime::expiry::{check_not_expired, expiry_message, total_secs, CertValidity};
use rsmime::{ErrorKind, RsmimeError};

fn validity(cn: &str, not_after_repr: &str, not_after_secs: i64) -> CertValidity {
    CertValidity {
        subject_cn: cn.to_string(),
        not_after_repr: not_after_repr.to_string(),
        not_after_secs,
    }
}

#[test]
fn empty_collection_is_vacuously_valid() {
    let certs: Vec<CertValidity> = Vec::new();
    assert!(check_not_expired(&certs, 0).is_ok());
    assert!(check_not_expired(&certs, i64::MAX).is_ok());
    assert!(check_not_expired(&certs, i64::MIN).is_ok());
}

#[test]
fn unexpired_collection_passes() {
    let certs = vec![
        validity("a", "later", 1_000),
        validity("b", "much later", 2_000),
    ];
    assert!(check_not_expired(&certs, 999).is_ok());
}

#[test]
fn expiry_is_inclusive_at_the_boundary() {
    // A certificate whose "not after" equals the current time counts as
    // expired.
    let certs = vec![validity("edge", "right now", 1_000)];
    assert!(check_not_expired(&certs, 999).is_ok());
    let failure = check_not_expired(&certs, 1_000).unwrap_err();
    assert_eq!(failure.subject_cn, "edge");
    assert_eq!(failure.expired_at, "right now");
}

#[test]
fn first_expired_certificate_is_reported() {
    let certs = vec![
        validity("fresh", "tomorrow", 5_000),
        validity("first-stale", "yesterday", 100),
        validity("second-stale", "long ago", 50),
    ];
    let failure = check_not_expired(&certs, 1_000).unwrap_err();
    assert_eq!(failure.subject_cn, "first-stale");
    assert_eq!(failure.expired_at, "yesterday");
}

#[test]
fn expiry_message_names_certificate_and_time() {
    let certs = vec![validity("alice", "Jan 1 00:00:00 2020 GMT", 0)];
    let failure = check_not_expired(&certs, 1).unwrap_err();
    let message = expiry_message(&failure);
    assert_eq!(message, "Certificate alice expired Jan 1 00:00:00 2020 GMT");
}

#[test]
fn total_secs_combines_days_and_seconds() {
    assert_eq!(total_secs(0, 0), 0);
    assert_eq!(total_secs(1, 0), 86_400);
    assert_eq!(total_secs(2, 5), 172_805);
    assert_eq!(total_secs(-1, -30), -86_430);
    assert_eq!(total_secs(i32::MAX, i32::MAX), 2_147_483_647i64 * 86_400 + 2_147_483_647);
}

#[test]
fn error_kinds_are_distinguishable() {
    let cert = RsmimeError::certificate("c".to_string());
    let expired = RsmimeError::certificate_expired("e".to_string());
    let sign = RsmimeError::sign_error("s".to_string());
    let verify = RsmimeError::verify_error("v".to_string());

    assert_eq!(cert.kind(), ErrorKind::Certificate);
    assert_eq!(expired.kind(), ErrorKind::CertificateExpired);
    assert_eq!(sign.kind(), ErrorKind::Sign);
    assert_eq!(verify.kind(), ErrorKind::Verify);

    assert_eq!(cert.message(), "c");
    assert_eq!(expired.message(), "e");
}

#[test]
fn certificate_expired_is_a_certificate_error() {
    // The taxonomy is a strict tree: only `Certificate` and its refinement
    // `CertificateExpired` count as certificate errors.
    assert!(RsmimeError::certificate("c".to_string()).is_certificate_error());
    assert!(RsmimeError::certificate_expired("e".to_string()).is_certificate_error());
    assert!(!RsmimeError::sign_error("s".to_string()).is_certificate_error());
    assert!(!RsmimeError::verify_error("v".to_string()).is_certificate_error());
}
