//! The audit log: records that carry no bodies, each linked to the one before it
//! by a hash, so that an edit to a record is found. Beside the records stands how many
//! were appended and the hash of the newest, so that a dropped tail is found too.
use crate::outside::sha256;
use crate::outside;
use crate::table::Record;
use crate::table;
use crate::text::{bytes_of, copy_bytes, same_bytes};
use vstd::prelude::*;
use vstd::string::*;
use vstd::utf8::encode_utf8;

verus! {

/// Eight bytes, the most significant first.
pub open spec fn be_bytes(n: int) -> Seq<u8> {
    seq![
        (n / 0x100_0000_0000_0000 % 256) as u8,
        (n / 0x1_0000_0000_0000 % 256) as u8,
        (n / 0x100_0000_0000 % 256) as u8,
        (n / 0x1_0000_0000 % 256) as u8,
        (n / 0x100_0000 % 256) as u8,
        (n / 0x1_0000 % 256) as u8,
        (n / 0x100 % 256) as u8,
        (n % 256) as u8,
    ]
}

/// A signed number in eight bytes of two's complement.
pub open spec fn be_signed(n: int) -> Seq<u8> {
    be_bytes(
        if n < 0 {
            n + 0x1_0000_0000_0000_0000
        } else {
            n
        },
    )
}

fn push_be(out: &mut Vec<u8>, n: u64)
    ensures
        final(out)@ == old(out)@ + be_bytes(n as int),
{
    out.push((n / 0x100_0000_0000_0000 % 256) as u8);
    out.push((n / 0x1_0000_0000_0000 % 256) as u8);
    out.push((n / 0x100_0000_0000 % 256) as u8);
    out.push((n / 0x1_0000_0000 % 256) as u8);
    out.push((n / 0x100_0000 % 256) as u8);
    out.push((n / 0x1_0000 % 256) as u8);
    out.push((n / 0x100 % 256) as u8);
    out.push((n % 256) as u8);
    assert(out@ =~= old(out)@ + be_bytes(n as int));
}

fn push_signed(out: &mut Vec<u8>, n: i64)
    ensures
        final(out)@ == old(out)@ + be_signed(n as int),
{
    let m: u64 = if n < 0 {
        (n as i128 + 0x1_0000_0000_0000_0000) as u64
    } else {
        n as u64
    };
    push_be(out, m);
}

fn push_all(out: &mut Vec<u8>, bytes: &[u8])
    ensures
        final(out)@ == old(out)@ + bytes@,
{
    let mut i: usize = 0;
    while i < bytes.len()
        invariant
            i <= bytes@.len(),
            out@ == old(out)@ + bytes@.take(i as int),
        decreases bytes@.len() - i,
    {
        out.push(bytes[i]);
        i = i + 1;
        assert(out@ =~= old(out)@ + bytes@.take(i as int));
    }
    assert(bytes@.take(i as int) =~= bytes@);
}

/// What a record's hash is taken of: the hash before it, its number, its time,
/// and its two texts, each with its length before it.
#[verifier::opaque]
pub open spec fn hashed_bytes(
    prev: Seq<u8>,
    seq: int,
    ts: int,
    event: Seq<char>,
    detail: Seq<char>,
) -> Seq<u8> {
    prev + be_signed(seq) + be_signed(ts) + be_bytes(encode_utf8(event).len() as int)
        + encode_utf8(event) + be_bytes(encode_utf8(detail).len() as int) + encode_utf8(detail)
}

/// The hash of a record.
pub open spec fn record_hash_of(
    prev: Seq<u8>,
    seq: int,
    ts: int,
    event: Seq<char>,
    detail: Seq<char>,
) -> Seq<u8> {
    outside::sha256_of(hashed_bytes(prev, seq, ts, event, detail))
}

/// Computes the hash of a record.
fn record_hash(prev: &Vec<u8>, seq: i64, ts: i64, event: &str, detail: &str) -> (h: Vec<u8>)
    ensures
        h@ == record_hash_of(prev@, seq as int, ts as int, event@, detail@),
        h@.len() == 32,
{
    let mut data: Vec<u8> = copy_bytes(prev);
    push_signed(&mut data, seq);
    push_signed(&mut data, ts);
    let e = event.as_bytes();
    push_be(&mut data, e.len() as u64);
    push_all(&mut data, e);
    let d = detail.as_bytes();
    push_be(&mut data, d.len() as u64);
    push_all(&mut data, d);
    proof {
        reveal(hashed_bytes);
    }
    sha256(&data)
}

/// One record of the log.
#[derive(Debug, Clone, PartialEq, Eq)]
pub struct AuditRecord {
    pub seq: i64,
    pub ts: i64,
    pub event: String,
    pub detail: String,
    pub prev_hash: Vec<u8>,
    pub hash: Vec<u8>,
}

/// The view of [`AuditRecord`].
#[verifier::ext_equal]
pub struct AuditRecordView {
    pub seq: i64,
    pub ts: i64,
    pub event: Seq<char>,
    pub detail: Seq<char>,
    pub prev_hash: Seq<u8>,
    pub hash: Seq<u8>,
}

impl View for AuditRecord {
    type V = AuditRecordView;

    open spec fn view(&self) -> AuditRecordView {
        AuditRecordView {
            seq: self.seq,
            ts: self.ts,
            event: self.event@,
            detail: self.detail@,
            prev_hash: self.prev_hash@,
            hash: self.hash@,
        }
    }
}

impl Record for AuditRecord {
    fn dup(&self) -> (r: Self) {
        let r = AuditRecord {
            seq: self.seq,
            ts: self.ts,
            event: self.event.clone(),
            detail: self.detail.clone(),
            prev_hash: copy_bytes(&self.prev_hash),
            hash: copy_bytes(&self.hash),
        };
        r
    }
}

/// What the first record is linked to: thirty-two zero bytes.
pub const GENESIS: [u8; 32] = [
    0, 0, 0, 0, 0, 0, 0, 0, 0, 0, 0, 0, 0, 0, 0, 0, 0, 0, 0, 0, 0, 0, 0, 0, 0, 0, 0, 0, 0, 0, 0, 0,
];

/// The bytes of [`GENESIS`].
pub open spec fn genesis() -> Seq<u8> {
    GENESIS@
}

fn genesis_hash() -> (h: Vec<u8>)
    ensures
        h@ == genesis(),
{
    bytes_of(GENESIS.as_slice())
}

/// What is kept beside the records: how many were ever appended, and the hash of the
/// newest of them.
#[derive(Debug, Clone, PartialEq, Eq)]
pub struct AuditTip {
    pub count: u64,
    pub hash: Vec<u8>,
}

/// The view of [`AuditTip`].
#[verifier::ext_equal]
pub struct AuditTipView {
    pub count: u64,
    pub hash: Seq<u8>,
}

impl View for AuditTip {
    type V = AuditTipView;

    open spec fn view(&self) -> AuditTipView {
        AuditTipView { count: self.count, hash: self.hash@ }
    }
}

impl Record for AuditTip {
    fn dup(&self) -> (r: Self) {
        AuditTip { count: self.count, hash: copy_bytes(&self.hash) }
    }
}

/// The records of a log, and its tip.
#[verifier::ext_equal]
pub struct AuditLogView {
    pub records: Seq<AuditRecordView>,
    pub tip: AuditTipView,
}

/// A log without records.
pub open spec fn empty_log() -> AuditLogView {
    AuditLogView { records: Seq::empty(), tip: AuditTipView { count: 0, hash: genesis() } }
}

/// The hash that the next record is linked to.
pub open spec fn head_of(log: Seq<AuditRecordView>) -> Seq<u8> {
    if log.len() == 0 || log.last().hash.len() != 32 {
        genesis()
    } else {
        log.last().hash
    }
}

/// The number of the next record.
pub open spec fn next_seq(log: Seq<AuditRecordView>) -> i64 {
    if log.len() == 0 {
        1
    } else if log.last().seq == i64::MAX {
        i64::MAX
    } else {
        (log.last().seq + 1) as i64
    }
}

/// The record that comes next.
pub open spec fn next_record(
    log: Seq<AuditRecordView>,
    ts: i64,
    event: Seq<char>,
    detail: Seq<char>,
) -> AuditRecordView {
    let seq = next_seq(log);
    AuditRecordView {
        seq,
        ts,
        event,
        detail,
        prev_hash: head_of(log),
        hash: record_hash_of(head_of(log), seq as int, ts as int, event, detail),
    }
}

/// The log with one record more.
pub open spec fn appended(
    log: AuditLogView,
    ts: i64,
    event: Seq<char>,
    detail: Seq<char>,
) -> AuditLogView {
    let record = next_record(log.records, ts, event, detail);
    AuditLogView {
        records: log.records.push(record),
        tip: AuditTipView {
            count: if log.tip.count == u64::MAX {
                u64::MAX
            } else {
                (log.tip.count + 1) as u64
            },
            hash: record.hash,
        },
    }
}

/// The number of the first record that is not linked to `prev`, or whose hash is
/// not its own; `None` where every record is.
pub open spec fn first_break(log: Seq<AuditRecordView>, prev: Seq<u8>) -> Option<i64>
    decreases log.len(),
{
    if log.len() == 0 {
        None
    } else {
        let r = log[0];
        let expected = record_hash_of(prev, r.seq as int, r.ts as int, r.event, r.detail);
        if r.prev_hash != prev || r.hash != expected {
            Some(r.seq)
        } else {
            first_break(log.drop_first(), expected)
        }
    }
}

/// The hash that the records of a log end with.
pub open spec fn last_hash(log: Seq<AuditRecordView>) -> Seq<u8> {
    if log.len() == 0 {
        genesis()
    } else {
        log.last().hash
    }
}

/// The records are all that were appended: they are as many as the tip says, and end
/// where it says.
pub open spec fn ends_at_the_tip(log: AuditLogView) -> bool {
    log.records.len() == log.tip.count && last_hash(log.records) == log.tip.hash
}

/// Where a log is broken: at the first record that is not linked, or else, where the
/// records do not end at the tip, at the number that would come next.
pub open spec fn broken_at(log: AuditLogView) -> Option<i64> {
    match first_break(log.records, genesis()) {
        Some(seq) => Some(seq),
        None => if ends_at_the_tip(log) {
            None
        } else {
            Some(next_seq(log.records))
        },
    }
}

/// Every record is linked, from the first on to the tip, and every hash has its
/// length.
pub open spec fn intact(log: AuditLogView) -> bool {
    &&& broken_at(log) is None
    &&& forall|i: int|
        0 <= i < log.records.len() ==> (#[trigger] log.records[i]).hash.len() == 32
}

/// Why a log does not verify.
#[derive(Debug, Clone, Copy, PartialEq, Eq, Structural)]
pub enum AuditError {
    /// The chain breaks at this record.
    Broken { seq: i64 },
}

/// The numbers of the records do not descend.
pub open spec fn in_order(log: Seq<AuditRecordView>) -> bool {
    forall|i: int, j: int|
        0 <= i < j < log.len() ==> (#[trigger] log[i]).seq <= (#[trigger] log[j]).seq
}

/// The log.
#[derive(Debug, Clone, PartialEq, Eq)]
pub struct AuditLog {
    records: Vec<AuditRecord>,
    tip: AuditTip,
}

impl View for AuditLog {
    type V = AuditLogView;

    closed spec fn view(&self) -> AuditLogView {
        AuditLogView { records: table::seen(self.records@), tip: self.tip@ }
    }
}

impl AuditLog {
    /// A log without records.
    pub fn new() -> (log: AuditLog)
        ensures
            log@ == empty_log(),
    {
        let log = AuditLog {
            records: Vec::new(),
            tip: AuditTip { count: 0, hash: genesis_hash() },
        };
        assert(log@.records =~= Seq::<AuditRecordView>::empty());
        log
    }

    /// A log of stored records, in the order of their numbers, with the tip that was
    /// stored beside them; `None` where they are not in that order.
    pub fn from_records(records: Vec<AuditRecord>, tip: AuditTip) -> (r: Option<AuditLog>)
        ensures
            match r {
                Some(log) => log@ == (AuditLogView { records: table::seen(records@), tip: tip@ })
                    && in_order(log@.records),
                None => !in_order(table::seen(records@)),
            },
    {
        let ghost v = table::seen(records@);
        let mut i: usize = 1;
        while i < records.len()
            invariant
                v == table::seen(records@),
                1 <= i,
                forall|a: int, b: int|
                    0 <= a < b < v.len() && b < i ==> (#[trigger] v[a]).seq <= (
                    #[trigger] v[b]).seq,
            decreases records@.len() - i,
        {
            assert(v[i as int] == records@[i as int]@ && v[i - 1] == records@[i - 1]@);
            if records[i].seq < records[i - 1].seq {
                assert(v[i - 1].seq > v[i as int].seq);
                return None;
            }
            i = i + 1;
        }
        Some(AuditLog { records, tip })
    }

    /// The stored records.
    pub fn records(&self) -> (r: &Vec<AuditRecord>)
        ensures
            table::seen(r@) == self@.records,
    {
        &self.records
    }

    /// What is stored beside the records.
    pub fn tip(&self) -> (r: &AuditTip)
        ensures
            r@ == self@.tip,
    {
        &self.tip
    }

    /// The newest record's hash, or thirty-two zero bytes if there is none.
    pub fn head(&self) -> (h: Vec<u8>)
        ensures
            h@ == head_of(self@.records),
    {
        let n = self.records.len();
        assert(self@.records.len() == n);
        if n == 0 {
            return genesis_hash();
        }
        assert(self@.records[n - 1] == self.records@[n - 1]@);
        if self.records[n - 1].hash.len() == 32 {
            copy_bytes(&self.records[n - 1].hash)
        } else {
            genesis_hash()
        }
    }

    fn following(&self) -> (seq: i64)
        ensures
            seq == next_seq(self@.records),
    {
        let n = self.records.len();
        assert(self@.records.len() == n);
        if n == 0 {
            1
        } else {
            assert(self@.records[n - 1] == self.records@[n - 1]@);
            let last: i64 = self.records[n - 1].seq;
            if last == i64::MAX {
                i64::MAX
            } else {
                last + 1
            }
        }
    }

    /// Appends a record, linked to the newest one, and gives its number.
    pub fn append(&mut self, ts: i64, event: &str, detail: &str) -> (seq: i64)
        requires
            in_order(old(self)@.records),
        ensures
            final(self)@ == appended(old(self)@, ts, event@, detail@),
            seq == next_seq(old(self)@.records),
            in_order(final(self)@.records),
            intact(old(self)@) ==> intact(final(self)@),
    {
        let ghost before = self@;
        let seq = self.following();
        let prev = self.head();
        let hash = record_hash(&prev, seq, ts, event, detail);
        let tip = AuditTip {
            count: if self.tip.count == u64::MAX {
                u64::MAX
            } else {
                self.tip.count + 1
            },
            hash: copy_bytes(&hash),
        };
        let record = AuditRecord {
            seq,
            ts,
            event: event.to_owned(),
            detail: detail.to_owned(),
            prev_hash: prev,
            hash,
        };
        let ghost rv = record@;
        self.records.push(record);
        self.tip = tip;
        let n = self.records.len();
        proof {
            let after = self@.records;
            assert(after =~= before.records.push(rv));
            assert(self@ =~= appended(before, ts, event@, detail@));
            assert forall|i: int, j: int| 0 <= i < j < after.len() implies (#[trigger] after[i]).seq
                <= (#[trigger] after[j]).seq by {
                if j == before.records.len() {
                    if i < before.records.len() - 1 {
                        assert(before.records[i].seq <= before.records[before.records.len() - 1].seq);
                    }
                } else {
                    assert(before.records[i].seq <= before.records[j].seq);
                }
            }
            if intact(before) {
                assert(after.len() == n && n <= u64::MAX);
                appending_keeps_the_chain(before, ts, event@, detail@);
            }
        }
        seq
    }

    /// Walks the log from its first record on and checks every link and every
    /// hash, and that it ends where the newest record was appended. Gives the number
    /// of records, or where the chain first breaks. A log that verifies is intact, so
    /// it verifies after an append as well.
    pub fn verify_chain(&self) -> (r: Result<u64, AuditError>)
        ensures
            match r {
                Ok(n) => broken_at(self@) is None && intact(self@) && n == self@.records.len(),
                Err(AuditError::Broken { seq }) => broken_at(self@) == Some(seq),
            },
    {
        let ghost log = self@.records;
        let mut prev = genesis_hash();
        let mut i: usize = 0;
        assert(log.skip(0) =~= log);
        while i < self.records.len()
            invariant
                i <= self.records@.len(),
                log == table::seen(self.records@),
                first_break(log, genesis()) == first_break(log.skip(i as int), prev@),
                prev@ == last_hash(log.take(i as int)),
                forall|j: int| 0 <= j < i ==> (#[trigger] log[j]).hash.len() == 32,
            decreases self.records@.len() - i,
        {
            let r = &self.records[i];
            let expected = record_hash(&prev, r.seq, r.ts, &r.event, &r.detail);
            assert(log.skip(i as int)[0] == r@);
            assert(log.skip(i as int).drop_first() =~= log.skip(i + 1));
            if !same_bytes(&r.prev_hash, &prev) || !same_bytes(&r.hash, &expected) {
                return Err(AuditError::Broken { seq: r.seq });
            }
            assert(log.take(i + 1).last() == r@);
            prev = expected;
            i = i + 1;
        }
        assert(log.take(i as int) =~= log);
        if i as u64 != self.tip.count || !same_bytes(&prev, &self.tip.hash) {
            return Err(AuditError::Broken { seq: self.following() });
        }
        Ok(i as u64)
    }
}

proof fn lemma_appended_links(log: Seq<AuditRecordView>, prev: Seq<u8>, r: AuditRecordView)
    requires
        first_break(log, prev) is None,
        r.prev_hash == (if log.len() == 0 {
            prev
        } else {
            log.last().hash
        }),
        r.hash == record_hash_of(r.prev_hash, r.seq as int, r.ts as int, r.event, r.detail),
    ensures
        first_break(log.push(r), prev) is None,
    decreases log.len(),
{
    let more = log.push(r);
    if log.len() == 0 {
        reveal_with_fuel(first_break, 2);
        assert(more[0] == r);
        assert(more.drop_first() =~= Seq::<AuditRecordView>::empty());
    } else {
        let first = log[0];
        let expected = record_hash_of(
            prev,
            first.seq as int,
            first.ts as int,
            first.event,
            first.detail,
        );
        assert(more[0] == first);
        assert(more.drop_first() =~= log.drop_first().push(r));
        if log.len() > 1 {
            assert(log.drop_first().last() == log.last());
        } else {
            assert(log.last() == first);
        }
        lemma_appended_links(log.drop_first(), expected, r);
    }
}

/// Appending keeps an intact log intact: whatever is recorded, every link from
/// the first record to the newest one still verifies. The digest of the new record has
/// its length.
pub proof fn appending_keeps_the_chain(
    log: AuditLogView,
    ts: i64,
    event: Seq<char>,
    detail: Seq<char>,
)
    requires
        intact(log),
        log.records.len() < u64::MAX,
        next_record(log.records, ts, event, detail).hash.len() == 32,
    ensures
        intact(appended(log, ts, event, detail)),
        appended(log, ts, event, detail).records.len() == log.records.len() + 1,
{
    let more = appended(log, ts, event, detail).records;
    lemma_appended_links(log.records, genesis(), more.last());
    assert(more =~= log.records.push(more.last()));
    assert forall|i: int| 0 <= i < more.len() implies (#[trigger] more[i]).hash.len() == 32 by {
        if i < log.records.len() {
            assert(more[i] == log.records[i]);
        }
    }
}

/// What was recorded stays: appending changes no earlier record.
pub proof fn appending_changes_no_record(
    log: AuditLogView,
    ts: i64,
    event: Seq<char>,
    detail: Seq<char>,
)
    ensures
        appended(log, ts, event, detail).records.take(log.records.len() as int) == log.records,
{
    assert(appended(log, ts, event, detail).records.take(log.records.len() as int)
        =~= log.records);
}

/// A dropped tail is found: where any number of the newest records is gone, the log
/// does not verify.
pub proof fn a_dropped_tail_is_found(log: AuditLogView, kept: int)
    requires
        broken_at(log) is None,
        0 <= kept < log.records.len(),
    ensures
        broken_at(AuditLogView { records: log.records.take(kept), ..log }) is Some,
{
}

/// Nor does it verify once more is appended to what is left.
pub proof fn a_dropped_tail_stays_found(
    log: AuditLogView,
    kept: int,
    ts: i64,
    event: Seq<char>,
    detail: Seq<char>,
)
    requires
        broken_at(log) is None,
        0 <= kept < log.records.len(),
        log.records.len() < u64::MAX,
    ensures
        broken_at(
            appended(AuditLogView { records: log.records.take(kept), ..log }, ts, event, detail),
        ) is Some,
{
}

/// An edit to a record's content, with every hash left as it is, breaks the
/// chain at or before that record, unless the digest of the edited record is
/// that of the record before the edit.
pub proof fn an_edited_record_is_found(
    log: Seq<AuditRecordView>,
    at: int,
    edited: AuditRecordView,
    prev: Seq<u8>,
)
    requires
        0 <= at < log.len(),
        first_break(log, prev) is None,
        edited.prev_hash == log[at].prev_hash,
        edited.hash == log[at].hash,
        record_hash_of(
            edited.prev_hash,
            edited.seq as int,
            edited.ts as int,
            edited.event,
            edited.detail,
        ) != log[at].hash,
    ensures
        first_break(log.update(at, edited), prev) == Some(edited.seq),
    decreases at,
{
    let changed = log.update(at, edited);
    if at > 0 {
        let first = log[0];
        let expected = record_hash_of(
            prev,
            first.seq as int,
            first.ts as int,
            first.event,
            first.detail,
        );
        assert(changed[0] == first);
        assert(changed.drop_first() =~= log.drop_first().update(at - 1, edited));
        an_edited_record_is_found(log.drop_first(), at - 1, edited, expected);
    }
}

} // verus!
