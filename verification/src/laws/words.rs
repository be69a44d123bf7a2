//! The words that states, refusals and errors are told in.
use crate::authority::AttemptState;
use crate::broker::SubAttemptState;
use crate::config::BootstrapError;
use crate::config;
use crate::coord_egress::CoordReject;
use crate::delivery::DeliveryError;
use crate::identity::{PeerStatus, SuspendReason};
use crate::meta;
use crate::outside;
use crate::pairing::PairServeError;
use crate::store::rows::{EgressState, StageStatus};
use crate::store::StoreError;
use vstd::prelude::*;

verus! {

/// The states of an attempt, by their names.
pub proof fn attempts_are_named(s: AttemptState, r: &'static str)
    requires
        call_ensures(AttemptState::as_str, (&s,), r),
    ensures
        r@ == (match s {
            AttemptState::Pending => "pending"@,
            AttemptState::Claimed => "claimed"@,
            AttemptState::Running => "running"@,
            AttemptState::Succeeded => "succeeded"@,
            AttemptState::Failed => "failed"@,
            AttemptState::Ambiguous => "ambiguous"@,
            AttemptState::Cancelled => "cancelled"@,
        }),
{
}

/// The states of a call, by their names.
pub proof fn calls_are_named(s: SubAttemptState, r: &'static str)
    requires
        call_ensures(SubAttemptState::as_str, (&s,), r),
    ensures
        r@ == (match s {
            SubAttemptState::Prepared => "prepared"@,
            SubAttemptState::Dispatching => "dispatching"@,
            SubAttemptState::Completed => "completed"@,
            SubAttemptState::Failed => "failed"@,
            SubAttemptState::Ambiguous => "ambiguous"@,
        }),
{
}

/// How a peer stands, and why one is suspended, by their names.
pub proof fn standings_are_named(
    s: PeerStatus,
    r: &'static str,
    why: SuspendReason,
    reason: &'static str,
)
    requires
        call_ensures(PeerStatus::as_column, (&s,), r),
        call_ensures(SuspendReason::as_str, (&why,), reason),
    ensures
        r@ == (match s {
            PeerStatus::Pending => "pending"@,
            PeerStatus::Active => "active"@,
            PeerStatus::Suspended(_) => "suspended"@,
        }),
        reason@ == (match why {
            SuspendReason::MaterialChanged => "MaterialChanged"@,
            SuspendReason::SubjectChanged => "SubjectChanged"@,
        }),
{
}

/// Where a staging and a carriage stand, by their names.
pub proof fn disclosures_are_named(
    s: StageStatus,
    staged: &'static str,
    e: EgressState,
    carried: &'static str,
)
    requires
        call_ensures(StageStatus::as_str, (&s,), staged),
        call_ensures(EgressState::as_str, (&e,), carried),
    ensures
        staged@ == (match s {
            StageStatus::Staged => "staged"@,
            StageStatus::Consented => "consented"@,
            StageStatus::Dispatched => "dispatched"@,
        }),
        carried@ == (match e {
            EgressState::Pending => "pending"@,
            EgressState::Sent => "sent"@,
            EgressState::Failed => "failed"@,
        }),
{
}

/// Why a dispatch is not admitted, by its name.
pub proof fn refused_dispatches_are_named(e: CoordReject, r: &'static str)
    requires
        call_ensures(CoordReject::reason, (e,), r),
    ensures
        r@ == (match e {
            CoordReject::Malformed => "malformed-envelope"@,
            CoordReject::SenderMismatch => "sender-mismatch"@,
            CoordReject::NotTheRecipient => "not-the-recipient"@,
            CoordReject::PayloadDigest => "payload-digest"@,
            CoordReject::StagedDigest => "staged-digest"@,
        }),
{
}

/// What is said of a digest that is refused.
pub proof fn refused_digests_are_told(e: DeliveryError, r: String)
    requires
        call_ensures(DeliveryError::message, (&e,), r),
    ensures
        r@ == (match e {
            DeliveryError::Missing => "Content-Digest is missing"@,
            DeliveryError::NotSingle => "Content-Digest must carry exactly one value"@,
            DeliveryError::Algorithm => "unsupported Content-Digest algorithm (only sha-256)"@,
            DeliveryError::Malformed => "malformed Content-Digest value"@,
            DeliveryError::Mismatch => "Content-Digest does not match the body"@,
        }),
{
}

/// What is said where pairing cannot be served.
pub proof fn unserved_pairing_is_told(e: PairServeError, r: String)
    requires
        call_ensures(PairServeError::message, (&e,), r),
    ensures
        r@ == (match e {
            PairServeError::Io(why) => "io: "@ + why@,
            PairServeError::Material(why) => "material: "@ + why@,
            PairServeError::Tls(why) => "tls: "@ + why@,
        }),
{
}

/// A secret is the 32 bytes of its file, or is refused by the name of the file.
pub proof fn a_secret_is_the_whole_file(
    path: &str,
    contents: &Vec<u8>,
    r: Result<[u8; 32], BootstrapError>,
)
    requires
        call_ensures(config::read_secret, (path, contents), r),
    ensures
        contents@.len() == 32 ==> r is Ok && r->Ok_0@ == contents@,
        contents@.len() != 32 ==> (r matches Err(BootstrapError::Config(why)) && why@
            == "the secret file "@ + path@ + " is not exactly 32 bytes"@),
{
    if r is Ok {
        assert(r->Ok_0@.len() == 32);
    }
}

/// A number that is kept is read back as it was.
pub proof fn a_kept_number_is_read_back(
    n: u64,
    bytes: Vec<u8>,
    found: Option<u64>,
    m: i64,
    signed: Vec<u8>,
    back: Option<i64>,
)
    requires
        call_ensures(meta::meta_set_u64, (n,), bytes),
        call_ensures(meta::meta_get_u64, (&Some(bytes),), found),
        call_ensures(meta::meta_set_i64, (m,), signed),
        call_ensures(meta::meta_get_i64, (&Some(signed),), back),
    ensures
        found == Some(n),
        back == Some(m),
{
}

/// A journal that does not last is refused by its name.
pub proof fn a_journal_is_refused_by_its_name(mode: &str, r: Result<(), StoreError>)
    requires
        call_ensures(meta::check_journal, (mode,), r),
    ensures
        r is Ok <==> mode@ == "wal"@ || mode@ == "memory"@,
        (r matches Err(StoreError::Corrupt(why)) ==> why@ == "journal_mode is "@ + outside::quoted(mode@)
            + ", expected wal (durable claim/CAS need WAL)"@),
{
}

} // verus!
