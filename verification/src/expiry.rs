use vstd::prelude::*;
use vstd::string::StringExecFns;

verus! {

/// The validity data of one certificate, as plain values: its subject
/// Common Name, its "not valid after" timestamp rendered as text, and the
/// same timestamp as seconds since the Unix epoch. The verifier builds one
/// of these per signer certificate before running the expiry policy.
pub struct CertValidity {
    /// The certificate's subject Common Name.
    pub subject_cn: String,
    /// The "not valid after" timestamp as human-readable text.
    pub not_after_repr: String,
    /// The "not valid after" timestamp, seconds since the Unix epoch.
    pub not_after_secs: i64,
}

/// The payload of a failed expiry check: which certificate expired and when,
/// both as human-readable text.
pub struct ExpiryFailure {
    /// The expired certificate's subject Common Name.
    pub subject_cn: String,
    /// The expired certificate's "not valid after" timestamp as text.
    pub expired_at: String,
}

/// A certificate is expired at `now_secs` when its "not valid after"
/// timestamp is at or before `now_secs`.
pub open spec fn spec_expired(cert: CertValidity, now_secs: i64) -> bool {
    cert.not_after_secs <= now_secs
}

/// Every certificate of the collection is still within its validity window
/// at `now_secs`.
pub open spec fn all_unexpired(certs: Seq<CertValidity>, now_secs: i64) -> bool {
    forall|i: int| 0 <= i < certs.len() ==> !spec_expired(certs[i], now_secs)
}

/// Checks a collection of certificates against the wall-clock time
/// `now_secs`, failing fast on the first expired one in order.
///
/// Returns `Ok(())` exactly when no certificate of the collection has
/// expired; an empty collection is vacuously valid. On failure the payload
/// carries the subject Common Name and the expiry timestamp of the first
/// expired certificate, and no later certificate is reported.
pub fn check_not_expired(certs: &Vec<CertValidity>, now_secs: i64) -> (r: Result<
    (),
    ExpiryFailure,
>)
    ensures
        r is Ok <==> all_unexpired(certs@, now_secs),
        r matches Err(f) ==> exists|j: int|
            {
                &&& 0 <= j < certs@.len()
                &&& spec_expired(certs@[j], now_secs)
                &&& all_unexpired(certs@.subrange(0, j), now_secs)
                &&& f.subject_cn == certs@[j].subject_cn
                &&& f.expired_at == certs@[j].not_after_repr
            },
{
    let mut i: usize = 0;
    while i < certs.len()
        invariant
            0 <= i <= certs@.len(),
            all_unexpired(certs@.subrange(0, i as int), now_secs),
        decreases certs@.len() - i,
    {
        if certs[i].not_after_secs <= now_secs {
            let f = ExpiryFailure {
                subject_cn: certs[i].subject_cn.clone(),
                expired_at: certs[i].not_after_repr.clone(),
            };
            return Err(f);
        }
        assert(certs@.subrange(0, i + 1 as int) =~= certs@.subrange(0, i as int).push(
            certs@[i as int],
        ));
        i = i + 1;
    }
    assert(certs@.subrange(0, certs@.len() as int) =~= certs@);
    Ok(())
}

/// An empty certificate collection is vacuously valid at every time.
pub proof fn lemma_empty_collection_vacuously_valid(now_secs: i64)
    ensures
        all_unexpired(Seq::<CertValidity>::empty(), now_secs),
{
}

/// Combines a day count and a leftover second count, both as signed 32-bit
/// values, into total seconds. This is how a time difference reported as
/// whole days plus seconds becomes one epoch-relative second count.
pub fn total_secs(days: i32, secs: i32) -> (r: i64)
    ensures
        r == days * 86400 + secs,
{
    (days as i64) * 86400 + (secs as i64)
}

/// The shape every expiry-failure message takes: a certificate name and an
/// expiry time in the one sentence that `expiry_message` builds.
pub open spec fn is_expiry_message(m: Seq<char>) -> bool {
    exists|cn: Seq<char>, t: Seq<char>| m == "Certificate "@ + cn + " expired "@ + t
}

/// The human-readable message of a failed expiry check: the subject Common
/// Name and the expiry timestamp, in one sentence.
pub fn expiry_message(failure: &ExpiryFailure) -> (r: String)
    ensures
        r@ == "Certificate "@ + failure.subject_cn@ + " expired "@ + failure.expired_at@,
        is_expiry_message(r@),
{
    let mut msg = String::from_str("Certificate ");
    msg.append(failure.subject_cn.as_str());
    msg.append(" expired ");
    msg.append(failure.expired_at.as_str());
    msg
}

} // verus!
