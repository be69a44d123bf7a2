//! Attempts at work orders: each work order is claimed once, and an attempt ends
//! once.
use crate::audit::AuditLogView;
use crate::audit;
use crate::authority::{
    AttemptEvent, AttemptState, IssuedWorkOrder, IssuedWorkOrderView, TransitionError, WorkOrder,
    WorkOrderView, next,
};
use crate::authority;
use crate::store::rows::{
    AttemptRow, AttemptRowView, ResultRow, ResultRowView, WorkOrderRow, WorkOrderRowView,
};
use crate::store::{Store, StoreError, StoreView};
use crate::table::Record;
use crate::table;
use crate::text::{bytes_of, copy_bytes, same_text};
use crate::text;
use vstd::prelude::*;
use vstd::string::*;

verus! {

/// What came of a claim.
#[derive(Debug, Clone, Copy, PartialEq, Eq, Structural)]
pub enum ClaimOutcome {
    /// The nonce is consumed and the budget reserved.
    Claimed,
    /// The work order was claimed before; its attempt is in this state.
    AlreadyClaimed(AttemptState),
    /// The nonce is that of another work order; nothing is claimed.
    NonceReused,
}

/// What came of completing an attempt.
#[derive(Debug, Clone, Copy, PartialEq, Eq, Structural)]
pub enum CompletionOutcome {
    /// The attempt succeeded, and its result is stored.
    Completed,
    /// It was completed before; that result stands.
    AlreadyCompleted,
    /// It cannot complete from this state; nothing was written.
    NotRunnable(AttemptState),
}

/// The nonce is that of some attempt.
pub open spec fn nonce_used(v: StoreView, nonce: Seq<char>) -> bool {
    exists|w: Seq<char>| #[trigger]
        v.attempts.contains_key(w) && v.attempts[w].nonce == nonce
}

/// What comes of a claim.
pub open spec fn claim_verdict(v: StoreView, order: WorkOrderView) -> ClaimOutcome {
    if v.attempts.contains_key(order.work_order_id) {
        ClaimOutcome::AlreadyClaimed(v.attempts[order.work_order_id].state)
    } else if nonce_used(v, order.nonce) {
        ClaimOutcome::NonceReused
    } else {
        ClaimOutcome::Claimed
    }
}

/// The state with a work order claimed.
pub open spec fn with_claim(
    v: StoreView,
    order: WorkOrderView,
    digest: Seq<char>,
    now: i64,
) -> StoreView {
    StoreView {
        attempts: v.attempts.insert(
            order.work_order_id,
            AttemptRowView {
                nonce: order.nonce,
                task_id: order.task_id,
                work_order_digest: digest,
                state: AttemptState::Claimed,
                budgets: order.budgets,
                claimed_at: now,
                deadline: order.deadline,
            },
        ),
        ..v
    }.audited(now, "attempt.claimed"@, order.work_order_id)
}

/// The state with an attempt moved.
pub open spec fn with_attempt_state(
    v: StoreView,
    work_order_id: Seq<char>,
    state: AttemptState,
    now: i64,
) -> StoreView {
    StoreView {
        attempts: v.attempts.insert(
            work_order_id,
            AttemptRowView { state, ..v.attempts[work_order_id] },
        ),
        ..v
    }.audited(now, "attempt.transition"@, work_order_id + ":"@ + state.name())
}

/// The attempt is under way.
pub open spec fn is_open_attempt(state: AttemptState) -> bool {
    state is Claimed || state is Running
}

/// The attempts, with those under way left in doubt.
pub open spec fn after_crash(m: Map<Seq<char>, AttemptRowView>) -> Map<Seq<char>, AttemptRowView> {
    Map::new(
        |k: Seq<char>| m.contains_key(k),
        |k: Seq<char>|
            if is_open_attempt(m[k].state) {
                AttemptRowView { state: AttemptState::Ambiguous, ..m[k] }
            } else {
                m[k]
            },
    )
}

/// The log with one transition to `ambiguous` for each of `ids`.
pub open spec fn crash_log(
    log: AuditLogView,
    ids: Seq<Seq<char>>,
    event: Seq<char>,
    now: i64,
) -> AuditLogView
    decreases ids.len(),
{
    if ids.len() == 0 {
        log
    } else {
        audit::appended(
            crash_log(log, ids.drop_last(), event, now),
            now,
            event,
            ids.last() + ":ambiguous"@,
        )
    }
}

/// `w` is the state after a crash in `v`, with a record for each of `ids`.
pub open spec fn recovered_attempts(
    v: StoreView,
    w: StoreView,
    ids: Seq<Seq<char>>,
    now: i64,
) -> bool {
    &&& table::listing_keys(
        ids,
        v.attempts,
        |k: Seq<char>, row: AttemptRowView| is_open_attempt(row.state),
        |a: (Seq<char>, AttemptRowView), b: (Seq<char>, AttemptRowView)| true,
    )
    &&& w == StoreView {
        attempts: after_crash(v.attempts),
        audit: crash_log(v.audit, ids, "attempt.transition"@, now),
        ..v
    }
}

/// What comes of completing an attempt.
pub open spec fn completion_verdict(state: AttemptState) -> CompletionOutcome {
    if state is Succeeded {
        CompletionOutcome::AlreadyCompleted
    } else if is_open_attempt(state) {
        CompletionOutcome::Completed
    } else {
        CompletionOutcome::NotRunnable(state)
    }
}

/// The state with an attempt completed and its result stored, in one step.
pub open spec fn with_result(
    v: StoreView,
    work_order_id: Seq<char>,
    task_id: Seq<char>,
    bundle_digest: Seq<char>,
    manifest: Seq<u8>,
    now: i64,
) -> StoreView {
    let w = with_attempt_state(v, work_order_id, AttemptState::Succeeded, now);
    StoreView {
        results: w.results.insert(
            work_order_id,
            ResultRowView { task_id, bundle_digest, manifest, completed_at: now },
        ),
        ..w
    }.audited(now, "result.completed"@, bundle_digest)
}

impl Store {
    fn is_nonce_used(&self, nonce: &str) -> (r: bool)
        requires
            self.wf(),
        ensures
            r == nonce_used(self@, nonce@),
    {
        let ghost n = nonce@;
        let ghost hit = |k: Seq<char>, row: AttemptRowView| row.nonce == n;
        let found = |k: &String, v: &AttemptRow| -> (r: bool)
            ensures (r == (v@.nonce == nonce@))
        {
            same_text(&v.nonce, nonce)
        };
        self.attempts.find(found, Ghost(hit)).is_some()
    }

    /// Claims a work order: consumes its nonce and reserves its budget in one
    /// step. Claimed again, it gives the state of the attempt that there is. The
    /// caller has verified the work order, and `digest` is its digest.
    pub fn claim_attempt(&mut self, order: &WorkOrder, digest: &str, now: i64) -> (r: Result<
        ClaimOutcome,
        StoreError,
    >)
        requires
            old(self).wf(),
        ensures
            final(self).wf(),
            r == Ok::<ClaimOutcome, StoreError>(claim_verdict(old(self)@, order@)),
            final(self)@ == (if claim_verdict(old(self)@, order@) is Claimed {
                with_claim(old(self)@, order@, digest@, now)
            } else {
                old(self)@
            }),
    {
        match self.attempts.get(&order.work_order_id) {
            Some(row) => {
                return Ok(ClaimOutcome::AlreadyClaimed(row.state));
            },
            None => {},
        }
        if self.is_nonce_used(&order.nonce) {
            return Ok(ClaimOutcome::NonceReused);
        }
        self.attempts.put(
            order.work_order_id.clone(),
            AttemptRow {
                nonce: order.nonce.clone(),
                task_id: order.task_id.clone(),
                work_order_digest: digest.to_owned(),
                state: AttemptState::Claimed,
                budgets: order.budgets.dup(),
                claimed_at: now,
                deadline: order.deadline.clone(),
            },
        );
        proof {
            let v = old(self)@;
            assert forall|a: Seq<char>, b: Seq<char>|
                self@.attempts.contains_key(a) && self@.attempts.contains_key(b) && (
                #[trigger] self@.attempts[a]).nonce == (#[trigger] self@.attempts[b]).nonce implies a
                == b by {
                if a != b && a == order@.work_order_id {
                    assert(v.attempts.contains_key(b));
                } else if a != b && b == order@.work_order_id {
                    assert(v.attempts.contains_key(a));
                } else if a != b {
                    assert(v.attempts[a] == self@.attempts[a]);
                    assert(v.attempts[b] == self@.attempts[b]);
                }
            }
        }
        let _ = self.audit.append(now, "attempt.claimed", &order.work_order_id);
        Ok(ClaimOutcome::Claimed)
    }

    /// The state of the attempt at a work order.
    pub fn attempt_state(&self, work_order_id: &str) -> (r: Result<
        Option<AttemptState>,
        StoreError,
    >)
        requires
            self.wf(),
        ensures
            r == Ok::<Option<AttemptState>, StoreError>(
                if self@.attempts.contains_key(work_order_id@) {
                    Some(self@.attempts[work_order_id@].state)
                } else {
                    None
                },
            ),
    {
        match self.attempts.get(&work_order_id.to_owned()) {
            Some(row) => Ok(Some(row.state)),
            None => Ok(None),
        }
    }

    /// Moves an attempt and records it. The attempt is there, and is not one that
    /// has a result.
    fn move_attempt(&mut self, work_order_id: &str, state: AttemptState, now: i64)
        requires
            old(self).wf(),
            old(self)@.attempts.contains_key(work_order_id@),
            !(old(self)@.attempts[work_order_id@].state is Succeeded),
        ensures
            final(self).wf(),
            final(self)@ == with_attempt_state(old(self)@, work_order_id@, state, now),
    {
        let k = work_order_id.to_owned();
        let row = match self.attempts.get(&k) {
            Some(known) => Some(
                AttemptRow {
                    nonce: known.nonce.clone(),
                    task_id: known.task_id.clone(),
                    work_order_digest: known.work_order_digest.clone(),
                    state,
                    budgets: known.budgets.dup(),
                    claimed_at: known.claimed_at,
                    deadline: known.deadline.clone(),
                },
            ),
            None => None,
        };
        match row {
            Some(row) => {
                self.attempts.put(k, row);
            },
            None => {},
        }
        let detail = work_order_id.to_owned().concat(":").concat(state.as_str());
        let _ = self.audit.append(now, "attempt.transition", &detail);
        proof {
            let v = old(self)@;
            let w = self@;
            assert(w =~= with_attempt_state(v, work_order_id@, state, now));
            assert forall|a: Seq<char>, b: Seq<char>|
                w.attempts.contains_key(a) && w.attempts.contains_key(b) && (
                #[trigger] w.attempts[a]).nonce == (#[trigger] w.attempts[b]).nonce implies a
                == b by {
                assert(v.attempts[a].nonce == w.attempts[a].nonce);
                assert(v.attempts[b].nonce == w.attempts[b].nonce);
            }
        }
    }

    /// Moves an attempt by an event. An event that does not follow changes
    /// nothing; an attempt that is not known is an error.
    pub fn advance_attempt(&mut self, work_order_id: &str, event: AttemptEvent, now: i64) -> (r:
        Result<Result<AttemptState, TransitionError>, StoreError>)
        requires
            old(self).wf(),
        ensures
            final(self).wf(),
            match r {
                Ok(moved) => old(self)@.attempts.contains_key(work_order_id@) && moved == authority::next_state(
                    old(self)@.attempts[work_order_id@].state,
                    event,
                ) && final(self)@ == (match moved {
                    Ok(state) => with_attempt_state(old(self)@, work_order_id@, state, now),
                    Err(_) => old(self)@,
                }),
                Err(StoreError::UnknownAttempt(id)) => id@ == work_order_id@
                    && !old(self)@.attempts.contains_key(work_order_id@) && final(self)@
                    == old(self)@,
                Err(_) => false,
            },
    {
        let state = match self.attempts.get(&work_order_id.to_owned()) {
            Some(row) => row.state,
            None => {
                return Err(StoreError::UnknownAttempt(work_order_id.to_owned()));
            },
        };
        match next(state, event) {
            Ok(new_state) => {
                self.move_attempt(work_order_id, new_state, now);
                Ok(Ok(new_state))
            },
            Err(e) => Ok(Err(e)),
        }
    }

    /// Leaves every attempt that was under way in doubt, as a crash did: an effect
    /// may have taken place, so none is tried again by itself. Says how many there
    /// were.
    pub fn resolve_crashed_attempts(&mut self, now: i64) -> (r: Result<usize, StoreError>)
        requires
            old(self).wf(),
        ensures
            final(self).wf(),
            match r {
                Ok(n) => exists|ids: Seq<Seq<char>>| #[trigger]
                    recovered_attempts(old(self)@, final(self)@, ids, now) && n == ids.len(),
                Err(_) => false,
            },
    {
        let ghost v = self@;
        let ghost keep = |k: Seq<char>, row: AttemptRowView| is_open_attempt(row.state);
        let ghost le = |a: (Seq<char>, AttemptRowView), b: (Seq<char>, AttemptRowView)| true;
        let ghost show = |k: Seq<char>, row: AttemptRowView| k;
        let kept = |k: &String, row: &AttemptRow| -> (r: bool)
            ensures (r == is_open_attempt(row@.state))
        {
            match row.state {
                AttemptState::Claimed | AttemptState::Running => true,
                _ => false,
            }
        };
        let no_later = |k: &String, v: &AttemptRow, l: &String, w: &AttemptRow| -> (r: bool)
            ensures (r)
        {
            true
        };
        let p = self.attempts.ordered(kept, no_later, Ghost(keep), Ghost(le));
        let ghost rows = self.attempts.entries();
        let mut ids: Vec<String> = Vec::new();
        let mut i: usize = 0;
        while i < p.len()
            invariant
                rows == self.attempts.entries(),
                table::picks(p@, rows, keep, le),
                i <= p@.len(),
                ids@.len() == i,
                forall|j: int| 0 <= j < i ==> (#[trigger] ids@[j])@ == rows[p@[j] as int].0,
            decreases p@.len() - i,
        {
            assert(p@[i as int] < rows.len());
            ids.push(self.attempts.key_at(p[i]).clone());
            i = i + 1;
        }
        let ghost all = text::views(ids@);
        proof {
            self.attempts.lemma_entries();
            table::lemma_picks_list(p@, rows, keep, le, show, all);
            let ks = choose|ks: Seq<Seq<char>>| #[trigger]
                table::listing_keys(ks, v.attempts, keep, le) && all =~= Seq::new(
                    ks.len(),
                    |i: int| show(ks[i], v.attempts[ks[i]]),
                );
            assert(all =~= ks);
        }
        let mut n: usize = 0;
        assert(self@.attempts =~= crashed_first(v.attempts, all.take(0)));
        assert(crash_log(v.audit, all.take(0), "attempt.transition"@, now) == v.audit);
        while n < ids.len()
            invariant
                all == text::views(ids@),
                v.consistent(),
                table::listing_keys(all, v.attempts, keep, le),
                keep == (|k: Seq<char>, row: AttemptRowView| is_open_attempt(row.state)),
                n <= ids@.len(),
                self.wf(),
                self@ == (StoreView {
                    attempts: crashed_first(v.attempts, all.take(n as int)),
                    audit: crash_log(v.audit, all.take(n as int), "attempt.transition"@, now),
                    ..v
                }),
            decreases ids@.len() - n,
        {
            let ghost id = all[n as int];
            let ghost before = self@;
            proof {
                assert(id == ids@[n as int]@);
                assert(all.contains(id));
                if all.take(n as int).contains(id) {
                    let j = choose|j: int| 0 <= j < n && all.take(n as int)[j] == id;
                    assert(all[j] == all[n as int]);
                }
                assert(all.take(n + 1).drop_last() =~= all.take(n as int));
            }
            self.move_attempt(&ids[n], AttemptState::Ambiguous, now);
            proof {
                let done = all.take(n + 1);
                assert(self@.attempts =~= crashed_first(v.attempts, done)) by {
                    assert forall|k: Seq<char>| v.attempts.contains_key(k) implies self@.attempts[k]
                        == crashed_first(v.attempts, done)[k] by {
                        if k == id {
                            assert(done[n as int] == k);
                        } else {
                            if done.contains(k) {
                                let j = choose|j: int| 0 <= j < done.len() && done[j] == k;
                                assert(all.take(n as int)[j] == k);
                            }
                            if all.take(n as int).contains(k) {
                                let j = choose|j: int| 0 <= j < n && all.take(n as int)[j] == k;
                                assert(done[j] == k);
                            }
                        }
                    }
                }
                lemma_ambiguous_name();
                assert(self@.audit == crash_log(v.audit, done, "attempt.transition"@, now));
            }
            n = n + 1;
        }
        proof {
            assert(all.take(n as int) =~= all);
            assert(crashed_first(v.attempts, all) =~= after_crash(v.attempts));
            assert(recovered_attempts(v, self@, all, now));
        }
        Ok(n)
    }

    /// Keeps an issued work order; the first one of an id stands.
    pub fn put_work_order(&mut self, issued: &IssuedWorkOrder, now: i64) -> (r: Result<
        (),
        StoreError,
    >)
        requires
            old(self).wf(),
        ensures
            r is Ok,
            final(self).wf(),
            final(self)@ == with_work_order(old(self)@, issued@, now),
    {
        if !self.work_orders.has(&issued.order.work_order_id) {
            self.work_orders.put(
                issued.order.work_order_id.clone(),
                WorkOrderRow { issued: issued.dup(), issued_at: now },
            );
            let _ = self.audit.append(now, "work_order.issued", &issued.order.work_order_id);
        }
        Ok(())
    }

    /// An issued work order.
    pub fn get_work_order(&self, work_order_id: &str) -> (r: Result<
        Option<IssuedWorkOrder>,
        StoreError,
    >)
        requires
            self.wf(),
        ensures
            match r {
                Ok(Some(issued)) => self@.work_orders.contains_key(work_order_id@) && issued@
                    == self@.work_orders[work_order_id@].issued,
                Ok(None) => !self@.work_orders.contains_key(work_order_id@),
                Err(_) => false,
            },
    {
        match self.work_orders.get(&work_order_id.to_owned()) {
            Some(row) => Ok(Some(row.issued.dup())),
            None => Ok(None),
        }
    }

    /// The work order of an attempt at a task.
    pub fn attempt_for_task(&self, task_id: &str) -> (r: Result<Option<String>, StoreError>)
        requires
            self.wf(),
        ensures
            match r {
                Ok(Some(id)) => is_attempt_at(self@, id@, task_id@),
                Ok(None) => forall|id: Seq<char>| !#[trigger] is_attempt_at(self@, id, task_id@),
                Err(_) => false,
            },
    {
        let ghost t = task_id@;
        let ghost hit = |k: Seq<char>, row: AttemptRowView| row.task_id == t;
        let found = |k: &String, v: &AttemptRow| -> (r: bool)
            ensures (r == (v@.task_id == task_id@))
        {
            same_text(&v.task_id, task_id)
        };
        match self.attempts.find(found, Ghost(hit)) {
            Some(i) => Ok(Some(self.attempts.key_at(i).clone())),
            None => Ok(None),
        }
    }

    /// Completes an attempt with its signed result, in one step: no result is there
    /// without a succeeded attempt. A result that is committed stands.
    pub fn complete_attempt_with_result(
        &mut self,
        work_order_id: &str,
        task_id: &str,
        bundle_digest: &str,
        manifest_envelope: &[u8],
        now: i64,
    ) -> (r: Result<CompletionOutcome, StoreError>)
        requires
            old(self).wf(),
        ensures
            final(self).wf(),
            match r {
                Ok(outcome) => old(self)@.attempts.contains_key(work_order_id@) && outcome
                    == completion_verdict(old(self)@.attempts[work_order_id@].state)
                    && final(self)@ == (if outcome is Completed {
                    with_result(
                        old(self)@,
                        work_order_id@,
                        task_id@,
                        bundle_digest@,
                        manifest_envelope@,
                        now,
                    )
                } else {
                    old(self)@
                }),
                Err(StoreError::UnknownAttempt(id)) => id@ == work_order_id@
                    && !old(self)@.attempts.contains_key(work_order_id@) && final(self)@
                    == old(self)@,
                Err(_) => false,
            },
    {
        let state = match self.attempts.get(&work_order_id.to_owned()) {
            Some(row) => row.state,
            None => {
                return Err(StoreError::UnknownAttempt(work_order_id.to_owned()));
            },
        };
        match state {
            AttemptState::Succeeded => Ok(CompletionOutcome::AlreadyCompleted),
            AttemptState::Claimed | AttemptState::Running => {
                self.move_attempt(work_order_id, AttemptState::Succeeded, now);
                self.results.put(
                    work_order_id.to_owned(),
                    ResultRow {
                        task_id: task_id.to_owned(),
                        bundle_digest: bundle_digest.to_owned(),
                        manifest: bytes_of(manifest_envelope),
                        completed_at: now,
                    },
                );
                let _ = self.audit.append(now, "result.completed", bundle_digest);
                Ok(CompletionOutcome::Completed)
            },
            _ => Ok(CompletionOutcome::NotRunnable(state)),
        }
    }

    /// The digest and the signed manifest of the result of an attempt.
    pub fn result_manifest(&self, work_order_id: &str) -> (r: Result<
        Option<(String, Vec<u8>)>,
        StoreError,
    >)
        requires
            self.wf(),
        ensures
            match r {
                Ok(Some((digest, manifest))) => self@.results.contains_key(work_order_id@)
                    && digest@ == self@.results[work_order_id@].bundle_digest && manifest@
                    == self@.results[work_order_id@].manifest,
                Ok(None) => !self@.results.contains_key(work_order_id@),
                Err(_) => false,
            },
    {
        match self.results.get(&work_order_id.to_owned()) {
            Some(row) => Ok(Some((row.bundle_digest.clone(), copy_bytes(&row.manifest)))),
            None => Ok(None),
        }
    }
}

/// The attempt under `id` is at a task.
pub open spec fn is_attempt_at(v: StoreView, id: Seq<char>, task_id: Seq<char>) -> bool {
    v.attempts.contains_key(id) && v.attempts[id].task_id == task_id
}

/// The state with an issued work order kept, unless one of its id is there.
pub open spec fn with_work_order(v: StoreView, issued: IssuedWorkOrderView, now: i64) -> StoreView {
    if v.work_orders.contains_key(issued.order.work_order_id) {
        v
    } else {
        StoreView {
            work_orders: v.work_orders.insert(
                issued.order.work_order_id,
                WorkOrderRowView { issued, issued_at: now },
            ),
            ..v
        }.audited(now, "work_order.issued"@, issued.order.work_order_id)
    }
}

/// The attempts, with those of `ids` left in doubt.
spec fn crashed_first(m: Map<Seq<char>, AttemptRowView>, ids: Seq<Seq<char>>) -> Map<
    Seq<char>,
    AttemptRowView,
> {
    Map::new(
        |k: Seq<char>| m.contains_key(k),
        |k: Seq<char>|
            if ids.contains(k) {
                AttemptRowView { state: AttemptState::Ambiguous, ..m[k] }
            } else {
                m[k]
            },
    )
}

proof fn lemma_ambiguous_name()
    ensures
        forall|id: Seq<char>|
            id + ":"@ + AttemptState::Ambiguous.name() == #[trigger] (id + ":ambiguous"@),
{
    reveal_strlit(":");
    reveal_strlit("ambiguous");
    reveal_strlit(":ambiguous");
    assert forall|id: Seq<char>| id + ":"@ + AttemptState::Ambiguous.name() == #[trigger] (id
        + ":ambiguous"@) by {
        assert(id + ":"@ + AttemptState::Ambiguous.name() =~= id + ":ambiguous"@);
    }
}

/// A nonce is good for one work order: once it is claimed, another work order that
/// presents it is refused.
pub proof fn nonces_are_used_once(
    v: StoreView,
    order: WorkOrderView,
    digest: Seq<char>,
    now: i64,
    other: WorkOrderView,
)
    requires
        claim_verdict(v, order) is Claimed,
        other.nonce == order.nonce,
        other.work_order_id != order.work_order_id,
    ensures
        !(claim_verdict(with_claim(v, order, digest, now), other) is Claimed),
        !v.attempts.contains_key(other.work_order_id) ==> claim_verdict(
            with_claim(v, order, digest, now),
            other,
        ) is NonceReused,
{
    let w = with_claim(v, order, digest, now);
    assert(w.attempts.contains_key(order.work_order_id)
        && w.attempts[order.work_order_id].nonce == other.nonce);
}

/// Claiming is idempotent: a work order that is claimed again gives the attempt that
/// there is.
pub proof fn claims_are_idempotent(v: StoreView, order: WorkOrderView, digest: Seq<char>, now: i64)
    requires
        claim_verdict(v, order) is Claimed,
    ensures
        claim_verdict(with_claim(v, order, digest, now), order) == ClaimOutcome::AlreadyClaimed(
            AttemptState::Claimed,
        ),
{
}

/// Recovery is idempotent, and only touches what was under way: afterwards nothing
/// is under way, and what had ended is as it was.
pub proof fn recovery_leaves_nothing_under_way(m: Map<Seq<char>, AttemptRowView>)
    ensures
        forall|k: Seq<char>| #[trigger]
            after_crash(m).contains_key(k) ==> !is_open_attempt(after_crash(m)[k].state),
        forall|k: Seq<char>|
            m.contains_key(k) && !is_open_attempt(m[k].state) ==> #[trigger] after_crash(m)[k]
                == m[k],
        after_crash(after_crash(m)) == after_crash(m),
{
    assert(after_crash(after_crash(m)) =~= after_crash(m));
}

/// A result is there only under an attempt that succeeded, and completing again
/// changes nothing.
pub proof fn results_stand(
    v: StoreView,
    work_order_id: Seq<char>,
    task_id: Seq<char>,
    bundle_digest: Seq<char>,
    manifest: Seq<u8>,
    now: i64,
)
    requires
        v.attempts.contains_key(work_order_id),
        completion_verdict(v.attempts[work_order_id].state) is Completed,
    ensures
        ({
            let w = with_result(v, work_order_id, task_id, bundle_digest, manifest, now);
            &&& w.results.contains_key(work_order_id)
            &&& w.attempts[work_order_id].state is Succeeded
            &&& completion_verdict(w.attempts[work_order_id].state) is AlreadyCompleted
        }),
{
}

} // verus!
