//! Received requests: each takes effect once, however often it arrives.
use crate::delivery::{CoveredValues, CoveredValuesView, body_digest};
use crate::delivery;
use crate::store::rows::{InboxRow, InboxRowView, TombstoneRow, TombstoneRowView};
use crate::store::{Store, StoreError, StoreView};
use crate::table::pair;
use crate::text::{bytes_of, copy_bytes, copy_option, copy_option_bytes, same_bytes};
use crate::text;
use vstd::prelude::*;

verus! {

/// What a received request is.
#[derive(Debug, Clone, PartialEq, Eq)]
pub enum Receipt {
    /// The first of its peer and message id; it is recorded now.
    Fresh,
    /// A replay: every covered value is the same. The saved response and task
    /// stand, and nothing happens a second time.
    Duplicate { task_id: Option<String>, response: Vec<u8> },
    /// The same peer and message id, with another covered value. Nothing is
    /// stored or overwritten.
    Conflict,
}

/// The view of [`Receipt`].
pub enum ReceiptView {
    Fresh,
    Duplicate { task_id: Option<Seq<char>>, response: Seq<u8> },
    Conflict,
}

impl View for Receipt {
    type V = ReceiptView;

    open spec fn view(&self) -> ReceiptView {
        match self {
            Receipt::Fresh => ReceiptView::Fresh,
            Receipt::Duplicate { task_id, response } => ReceiptView::Duplicate {
                task_id: text::view_option(*task_id),
                response: response@,
            },
            Receipt::Conflict => ReceiptView::Conflict,
        }
    }
}

/// What is known of an earlier request of the same peer and message id.
struct PriorSighting {
    commitment: Vec<u8>,
    task_id: Option<String>,
    response: Option<Vec<u8>>,
}

/// The view of an earlier request.
pub struct SightingView {
    pub commitment: Seq<u8>,
    pub task_id: Option<Seq<char>>,
    pub response: Option<Seq<u8>>,
}

/// The earlier request of a peer and message id: recorded, or as its tombstone.
pub open spec fn prior(v: StoreView, k: (Seq<char>, Seq<char>)) -> Option<SightingView> {
    if v.inbox.contains_key(k) {
        Some(
            SightingView {
                commitment: v.inbox[k].commitment,
                task_id: v.inbox[k].task_id,
                response: v.inbox[k].response,
            },
        )
    } else if v.tombstones.contains_key(k) {
        Some(
            SightingView {
                commitment: v.tombstones[k].commitment,
                task_id: v.tombstones[k].task_id,
                response: v.tombstones[k].response,
            },
        )
    } else {
        None
    }
}

/// What a request with this commitment is, after an earlier one. A saved response
/// that could not be read back is no match.
pub open spec fn decided(commitment: Seq<u8>, p: SightingView) -> ReceiptView {
    if p.commitment != commitment {
        ReceiptView::Conflict
    } else {
        match p.response {
            Some(response) => ReceiptView::Duplicate { task_id: p.task_id, response },
            None => ReceiptView::Conflict,
        }
    }
}

/// What a request is.
pub open spec fn receipt_of(v: StoreView, covered: CoveredValuesView) -> ReceiptView {
    match prior(v, (covered.peer, covered.message_id)) {
        Some(p) => decided(delivery::commitment_of(covered, v.commitment_key), p),
        None => ReceiptView::Fresh,
    }
}

/// The state with a request recorded.
pub open spec fn with_request(
    v: StoreView,
    covered: CoveredValuesView,
    body: Seq<u8>,
    response: Seq<u8>,
    task_id: Option<Seq<char>>,
    response_class: Seq<char>,
    now: i64,
) -> StoreView {
    StoreView {
        inbox: v.inbox.insert(
            (covered.peer, covered.message_id),
            InboxRowView {
                commitment: delivery::commitment_of(covered, v.commitment_key),
                body_digest: covered.body_digest,
                task_id,
                response_class,
                body,
                response: Some(response),
                received_at: now,
            },
        ),
        ..v
    }
}

/// The state with a recorded request turned into a tombstone: the body is dropped,
/// and what a replay needs is kept.
pub open spec fn with_tombstone(
    v: StoreView,
    k: (Seq<char>, Seq<char>),
    expires_at: i64,
) -> StoreView {
    let row = v.inbox[k];
    StoreView {
        inbox: v.inbox.remove(k),
        tombstones: v.tombstones.insert(
            k,
            TombstoneRowView {
                commitment: row.commitment,
                task_id: row.task_id,
                response_class: row.response_class,
                response: row.response,
                expires_at,
            },
        ),
        ..v
    }
}

impl Store {
    fn prior_response(&self, peer: &str, message_id: &str) -> (r: Option<PriorSighting>)
        requires
            self.wf(),
        ensures
            match (r, prior(self@, (peer@, message_id@))) {
                (Some(p), Some(q)) => p.commitment@ == q.commitment && text::view_option(p.task_id)
                    == q.task_id && text::view_bytes(p.response) == q.response,
                (None, None) => true,
                _ => false,
            },
    {
        let k = pair(peer, message_id);
        match self.inbox.get(&k) {
            Some(row) => {
                return Some(
                    PriorSighting {
                        commitment: copy_bytes(&row.commitment),
                        task_id: copy_option(&row.task_id),
                        response: copy_option_bytes(&row.response),
                    },
                );
            },
            None => {},
        }
        match self.tombstones.get(&k) {
            Some(row) => Some(
                PriorSighting {
                    commitment: copy_bytes(&row.commitment),
                    task_id: copy_option(&row.task_id),
                    response: copy_option_bytes(&row.response),
                },
            ),
            None => None,
        }
    }

    fn decide(commitment: &Vec<u8>, prior: PriorSighting) -> (r: Receipt)
        ensures
            r@ == decided(
                commitment@,
                (SightingView {
                    commitment: prior.commitment@,
                    task_id: text::view_option(prior.task_id),
                    response: text::view_bytes(prior.response),
                }),
            ),
    {
        if !same_bytes(&prior.commitment, commitment) {
            return Receipt::Conflict;
        }
        match prior.response {
            Some(response) => Receipt::Duplicate { task_id: prior.task_id, response },
            None => Receipt::Conflict,
        }
    }

    /// Receives a request. The first of its peer and message id is recorded with
    /// its response; a repetition gives the saved response back if every covered
    /// value is the same, and is a conflict if one is not.
    pub fn receive_request(
        &mut self,
        covered: &CoveredValues,
        body: &[u8],
        response: &[u8],
        task_id: Option<&str>,
        response_class: &str,
        now: i64,
    ) -> (r: Result<Receipt, StoreError>)
        requires
            old(self).wf(),
        ensures
            final(self).wf(),
            match r {
                Ok(receipt) => receipt@ == receipt_of(old(self)@, covered@) && final(self)@ == (
                if receipt_of(old(self)@, covered@) is Fresh {
                    with_request(
                        old(self)@,
                        covered@,
                        body@,
                        response@,
                        text::view_str(task_id),
                        response_class@,
                        now,
                    )
                } else {
                    old(self)@
                }),
                Err(_) => false,
            },
    {
        let commitment = covered.commitment(&self.commitment_key);
        match self.prior_response(&covered.peer, &covered.message_id) {
            Some(prior) => {
                return Ok(Self::decide(&commitment, prior));
            },
            None => {},
        }
        let task = match task_id {
            Some(t) => Some(t.to_owned()),
            None => None,
        };
        self.inbox.put(
            pair(&covered.peer, &covered.message_id),
            InboxRow {
                commitment,
                body_digest: covered.body_digest.clone(),
                task_id: task,
                response_class: response_class.to_owned(),
                body: bytes_of(body),
                response: Some(bytes_of(response)),
                received_at: now,
            },
        );
        Ok(Receipt::Fresh)
    }

    /// Says what a request is, and records nothing.
    pub fn peek(&self, covered: &CoveredValues) -> (r: Result<Receipt, StoreError>)
        requires
            self.wf(),
        ensures
            match r {
                Ok(receipt) => receipt@ == receipt_of(self@, covered@),
                Err(_) => false,
            },
    {
        let commitment = covered.commitment(&self.commitment_key);
        match self.prior_response(&covered.peer, &covered.message_id) {
            Some(prior) => Ok(Self::decide(&commitment, prior)),
            None => Ok(Receipt::Fresh),
        }
    }

    /// Turns a recorded request into a tombstone that lasts until `expires_at`, and
    /// says whether there was one.
    pub fn demote_to_tombstone(&mut self, peer: &str, message_id: &str, expires_at: i64) -> (r:
        Result<bool, StoreError>)
        requires
            old(self).wf(),
        ensures
            final(self).wf(),
            r == Ok::<bool, StoreError>(old(self)@.inbox.contains_key((peer@, message_id@))),
            final(self)@ == (if old(self)@.inbox.contains_key((peer@, message_id@)) {
                with_tombstone(old(self)@, (peer@, message_id@), expires_at)
            } else {
                old(self)@
            }),
    {
        let k = pair(peer, message_id);
        let row = match self.inbox.get(&k) {
            Some(row) => TombstoneRow {
                commitment: copy_bytes(&row.commitment),
                task_id: copy_option(&row.task_id),
                response_class: row.response_class.clone(),
                response: copy_option_bytes(&row.response),
                expires_at,
            },
            None => {
                return Ok(false);
            },
        };
        let _ = self.inbox.remove(&k);
        self.tombstones.put(k, row);
        Ok(true)
    }
}

/// A request that was received once is a duplicate ever after: received again with
/// the same covered values, it gives the response and the task of the first time,
/// whatever the repetition proposes.
pub proof fn a_replay_gives_the_first_response(
    v: StoreView,
    covered: CoveredValuesView,
    body: Seq<u8>,
    response: Seq<u8>,
    task_id: Option<Seq<char>>,
    response_class: Seq<char>,
    now: i64,
)
    requires
        receipt_of(v, covered) is Fresh,
    ensures
        receipt_of(
            with_request(v, covered, body, response, task_id, response_class, now),
            covered,
        ) == (ReceiptView::Duplicate { task_id, response }),
{
}

/// A request of the same peer and message id with another commitment is a conflict,
/// once the first was received.
pub proof fn a_changed_request_is_a_conflict(
    v: StoreView,
    covered: CoveredValuesView,
    body: Seq<u8>,
    response: Seq<u8>,
    task_id: Option<Seq<char>>,
    response_class: Seq<char>,
    now: i64,
    changed: CoveredValuesView,
)
    requires
        receipt_of(v, covered) is Fresh,
        changed.peer == covered.peer,
        changed.message_id == covered.message_id,
        delivery::commitment_of(changed, v.commitment_key) != delivery::commitment_of(covered, v.commitment_key),
    ensures
        receipt_of(
            with_request(v, covered, body, response, task_id, response_class, now),
            changed,
        ) is Conflict,
{
}

/// Dropping the body of a recorded request changes the answer to no request.
pub proof fn tombstones_answer_like_records(
    v: StoreView,
    k: (Seq<char>, Seq<char>),
    expires_at: i64,
    covered: CoveredValuesView,
)
    requires
        v.inbox.contains_key(k),
    ensures
        receipt_of(with_tombstone(v, k, expires_at), covered) == receipt_of(v, covered),
{
}

} // verus!
