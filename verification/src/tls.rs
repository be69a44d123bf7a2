//! Judging a certificate that a peer presents.
//!
//! Certificates sign themselves, so there is no chain to follow: a peer that is known
//! is held to the fingerprint that was pinned. A fingerprint says which key the peer
//! has, and not that its certificate is current, so that is looked at as well.
use crate::identity::{Fingerprint, FingerprintKind, FingerprintView, same_fingerprint};
use crate::numerals::hex;
use crate::numerals;
use crate::outside::sha256;
use crate::outside;
use vstd::prelude::*;

verus! {

/// What is said of a certificate.
#[derive(Debug, Clone, Copy, PartialEq, Eq, Structural)]
pub enum CertVerdict {
    Accepted,
    /// It is not the one that was pinned.
    NotPinned,
    /// It cannot be read.
    BadEncoding,
    NotValidYet,
    Expired,
}

/// The fingerprint of a certificate, from its bytes.
pub open spec fn cert_fingerprint(der: Seq<u8>) -> FingerprintView {
    FingerprintView { kind: FingerprintKind::CertSha256, value: numerals::hex_of(outside::sha256_of(der)) }
}

/// Takes the fingerprint of a certificate.
pub fn cert_sha256(der: &[u8]) -> (r: Fingerprint)
    ensures
        r@ == cert_fingerprint(der@),
{
    let digest = sha256(der);
    Fingerprint { kind: FingerprintKind::CertSha256, value: hex(&digest) }
}

/// Whether a certificate is current, by the two instants that it names. Both of them
/// count.
pub open spec fn time_verdict(validity: Option<(i64, i64)>, now: i64) -> CertVerdict {
    match validity {
        None => CertVerdict::BadEncoding,
        Some((not_before, not_after)) => if now < not_before {
            CertVerdict::NotValidYet
        } else if now > not_after {
            CertVerdict::Expired
        } else {
            CertVerdict::Accepted
        },
    }
}

/// Judges whether a certificate is current. `validity` is what was read of it. The
/// comparison is a rule of this module, called from no outside crate.
pub fn check_cert_time(validity: Option<(i64, i64)>, now: i64) -> (r: CertVerdict)
    ensures
        r == time_verdict(validity, now),
{
    match validity {
        None => CertVerdict::BadEncoding,
        Some((not_before, not_after)) => if now < not_before {
            CertVerdict::NotValidYet
        } else if now > not_after {
            CertVerdict::Expired
        } else {
            CertVerdict::Accepted
        },
    }
}

/// What is said of the certificate of a peer that is pinned.
pub open spec fn pinned_verdict(
    expected: FingerprintView,
    der: Seq<u8>,
    validity: Option<(i64, i64)>,
    now: i64,
) -> CertVerdict {
    if cert_fingerprint(der) != expected {
        CertVerdict::NotPinned
    } else {
        time_verdict(validity, now)
    }
}

/// Judges the certificate of a peer that is pinned.
pub fn check_pinned(
    expected: &Fingerprint,
    der: &[u8],
    validity: Option<(i64, i64)>,
    now: i64,
) -> (r: CertVerdict)
    ensures
        r == pinned_verdict(expected@, der@, validity, now),
{
    if !same_fingerprint(&cert_sha256(der), expected) {
        return CertVerdict::NotPinned;
    }
    check_cert_time(validity, now)
}

/// A certificate that is not current is refused, though it is the one that was
/// pinned; and one that was not pinned is refused, though it is current.
pub proof fn pins_and_time_both_count(
    expected: FingerprintView,
    der: Seq<u8>,
    validity: Option<(i64, i64)>,
    now: i64,
)
    ensures
        pinned_verdict(expected, der, validity, now) is Accepted <==> cert_fingerprint(der)
            == expected && time_verdict(validity, now) is Accepted,
{
}

} // verus!
