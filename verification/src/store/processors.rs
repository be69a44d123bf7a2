//! Configured processors, their credentials, and the calls made to them.
use crate::broker::{
    CallTransitionError, ProcessorCall, ProcessorCallView, ProcessorConfig, ProcessorConfigView,
    SubAttemptEvent, SubAttemptState, next_call,
};
use crate::broker;
use crate::store::attempts;
use crate::store::rows::{
    CallRow, CallRowView, CredentialRow, CredentialRowView, ProcessorRow, ProcessorRowView,
};
use crate::store::{Store, StoreError, StoreView};
use crate::table::Record;
use crate::table;
use crate::text::{bytes_of, copy_bytes, is_before, same_text};
use crate::text;
use vstd::prelude::*;
use vstd::string::*;

verus! {

/// What came of preparing a call.
#[derive(Debug, Clone, Copy, PartialEq, Eq, Structural)]
pub enum PrepareOutcome {
    /// It is recorded, and nothing is sent yet.
    Prepared,
    /// It was recorded before, and is in this state.
    AlreadyPrepared(SubAttemptState),
    /// The work order allows no further call; nothing is recorded.
    BudgetExhausted { max_operations: u32 },
}

/// The calls recorded for a work order.
pub open spec fn calls_of(v: StoreView, work_order_id: Seq<char>) -> Map<Seq<char>, CallRowView> {
    table::only(v.calls, |k: Seq<char>, row: CallRowView| row.call.work_order_id == work_order_id)
}

/// What comes of preparing a call.
pub open spec fn prepare_verdict(
    v: StoreView,
    call: ProcessorCallView,
    max_operations: u32,
) -> PrepareOutcome {
    if v.calls.contains_key(call.idempotency_key) {
        PrepareOutcome::AlreadyPrepared(v.calls[call.idempotency_key].state)
    } else if calls_of(v, call.work_order_id).dom().len() >= max_operations {
        PrepareOutcome::BudgetExhausted { max_operations }
    } else {
        PrepareOutcome::Prepared
    }
}

/// The state with a call recorded.
pub open spec fn with_call(v: StoreView, call: ProcessorCallView, now: i64) -> StoreView {
    StoreView {
        calls: v.calls.insert(
            call.idempotency_key,
            CallRowView { call, state: SubAttemptState::Prepared, prepared_at: now },
        ),
        ..v
    }.audited(now, "processor.prepared"@, call.idempotency_key)
}

/// The state with a call moved.
pub open spec fn with_call_state(
    v: StoreView,
    key: Seq<char>,
    state: SubAttemptState,
    now: i64,
) -> StoreView {
    StoreView {
        calls: v.calls.insert(key, CallRowView { state, ..v.calls[key] }),
        ..v
    }.audited(now, "processor.transition"@, key + ":"@ + state.name())
}

/// The calls, with those being sent left in doubt.
pub open spec fn calls_after_crash(m: Map<Seq<char>, CallRowView>) -> Map<Seq<char>, CallRowView> {
    Map::new(
        |k: Seq<char>| m.contains_key(k),
        |k: Seq<char>|
            if m[k].state is Dispatching {
                CallRowView { state: SubAttemptState::Ambiguous, ..m[k] }
            } else {
                m[k]
            },
    )
}

/// `w` is the state after a crash in `v`, with a record for each of `keys`.
pub open spec fn recovered_calls(
    v: StoreView,
    w: StoreView,
    keys: Seq<Seq<char>>,
    now: i64,
) -> bool {
    &&& table::listing_keys(
        keys,
        v.calls,
        |k: Seq<char>, row: CallRowView| row.state is Dispatching,
        |a: (Seq<char>, CallRowView), b: (Seq<char>, CallRowView)| true,
    )
    &&& w == StoreView {
        calls: calls_after_crash(v.calls),
        audit: attempts::crash_log(v.audit, keys, "processor.transition"@, now),
        ..v
    }
}

/// A processor as a list shows it.
pub open spec fn processor_shown(id: Seq<char>, row: ProcessorRowView) -> ProcessorConfigView {
    row.config
}

/// Processors in the order of their ids.
pub open spec fn by_processor(
    a: (Seq<char>, ProcessorRowView),
    b: (Seq<char>, ProcessorRowView),
) -> bool {
    text::text_le(a.0, b.0)
}

/// The configured processors, by id.
pub open spec fn processors_listed(v: StoreView, list: Seq<ProcessorConfigView>) -> bool {
    table::lists(
        list,
        v.processors,
        |k: Seq<char>, row: ProcessorRowView| true,
        |k: Seq<char>, row: ProcessorRowView| processor_shown(k, row),
        |a: (Seq<char>, ProcessorRowView), b: (Seq<char>, ProcessorRowView)| by_processor(a, b),
    )
}

impl Store {
    /// Configures a processor, in place of one with its id; when that one was added
    /// stays on record.
    pub fn put_processor(&mut self, config: &ProcessorConfig, now: i64) -> (r: Result<
        (),
        StoreError,
    >)
        requires
            old(self).wf(),
        ensures
            r is Ok,
            final(self).wf(),
            final(self)@ == (StoreView {
                processors: old(self)@.processors.insert(
                    config@.processor_id,
                    ProcessorRowView {
                        config: config@,
                        added_at: if old(self)@.processors.contains_key(config@.processor_id) {
                            old(self)@.processors[config@.processor_id].added_at
                        } else {
                            now
                        },
                    },
                ),
                ..old(self)@
            }).audited(now, "processor.configured"@, config@.processor_id),
    {
        let added_at: i64 = match self.processors.get(&config.processor_id) {
            Some(row) => row.added_at,
            None => now,
        };
        self.processors.put(
            config.processor_id.clone(),
            ProcessorRow { config: config.dup(), added_at },
        );
        let _ = self.audit.append(now, "processor.configured", &config.processor_id);
        Ok(())
    }

    /// A configured processor.
    pub fn get_processor(&self, processor_id: &str) -> (r: Result<
        Option<ProcessorConfig>,
        StoreError,
    >)
        requires
            self.wf(),
        ensures
            match r {
                Ok(Some(config)) => self@.processors.contains_key(processor_id@) && config@
                    == self@.processors[processor_id@].config,
                Ok(None) => !self@.processors.contains_key(processor_id@),
                Err(_) => false,
            },
    {
        match self.processors.get(&processor_id.to_owned()) {
            Some(row) => Ok(Some(row.config.dup())),
            None => Ok(None),
        }
    }

    /// The configured processors, by id.
    pub fn list_processors(&self) -> (r: Result<Vec<ProcessorConfig>, StoreError>)
        requires
            self.wf(),
        ensures
            match r {
                Ok(list) => processors_listed(self@, table::seen(list@)),
                Err(_) => false,
            },
    {
        let ghost keep = |k: Seq<char>, v: ProcessorRowView| true;
        let ghost show = |k: Seq<char>, v: ProcessorRowView| processor_shown(k, v);
        let ghost le = |a: (Seq<char>, ProcessorRowView), b: (Seq<char>, ProcessorRowView)| by_processor(a, b);
        proof {
            text::lemma_text_le_ranks();
            self.processors.lemma_entries();
        }
        let kept = |k: &String, v: &ProcessorRow| -> (r: bool)
            ensures (r == (true))
        {
            true
        };
        let no_later = |k: &String, v: &ProcessorRow, l: &String, w: &ProcessorRow| -> (r: bool)
            ensures (r == by_processor((k@, v@), (l@, w@)))
        {
            !is_before(l, k)
        };
        let p = self.processors.ordered(kept, no_later, Ghost(keep), Ghost(le));
        let ghost rows = self.processors.entries();
        let mut list: Vec<ProcessorConfig> = Vec::new();
        let mut i: usize = 0;
        while i < p.len()
            invariant
                rows == self.processors.entries(),
                table::picks(p@, rows, keep, le),
                i <= p@.len(),
                list@.len() == i,
                forall|j: int|
                    0 <= j < i ==> (#[trigger] list@[j])@ == processor_shown(
                        rows[p@[j] as int].0,
                        rows[p@[j] as int].1,
                    ),
            decreases p@.len() - i,
        {
            assert(p@[i as int] < rows.len());
            let row = self.processors.value_at(p[i]);
            list.push(row.config.dup());
            i = i + 1;
        }
        proof {
            table::lemma_picks_list(p@, rows, keep, le, show, table::seen(list@));
        }
        Ok(list)
    }

    /// Sets the credential of a processor, in place of the one it had.
    pub fn put_credential(&mut self, processor_id: &str, credential: &[u8], now: i64) -> (r: Result<
        (),
        StoreError,
    >)
        requires
            old(self).wf(),
        ensures
            r is Ok,
            final(self).wf(),
            final(self)@ == (StoreView {
                credentials: old(self)@.credentials.insert(
                    processor_id@,
                    CredentialRowView { credential: credential@, updated_at: now },
                ),
                ..old(self)@
            }).audited(now, "processor.credential_set"@, processor_id@),
    {
        self.credentials.put(
            processor_id.to_owned(),
            CredentialRow { credential: bytes_of(credential), updated_at: now },
        );
        let _ = self.audit.append(now, "processor.credential_set", processor_id);
        Ok(())
    }

    /// The credential of a processor.
    pub fn get_credential(&self, processor_id: &str) -> (r: Result<Option<Vec<u8>>, StoreError>)
        requires
            self.wf(),
        ensures
            match r {
                Ok(Some(credential)) => self@.credentials.contains_key(processor_id@) && credential@
                    == self@.credentials[processor_id@].credential,
                Ok(None) => !self@.credentials.contains_key(processor_id@),
                Err(_) => false,
            },
    {
        match self.credentials.get(&processor_id.to_owned()) {
            Some(row) => Ok(Some(copy_bytes(&row.credential))),
            None => Ok(None),
        }
    }

    /// Records a call before anything is sent. A call that is recorded already is
    /// given back as it is; a new one is refused where the work order has as many
    /// calls as it allows.
    pub fn prepare_call(&mut self, call: &ProcessorCall, max_operations: u32, now: i64) -> (r:
        Result<PrepareOutcome, StoreError>)
        requires
            old(self).wf(),
        ensures
            final(self).wf(),
            r == Ok::<PrepareOutcome, StoreError>(
                prepare_verdict(old(self)@, call@, max_operations),
            ),
            final(self)@ == (if prepare_verdict(old(self)@, call@, max_operations) is Prepared {
                with_call(old(self)@, call@, now)
            } else {
                old(self)@
            }),
    {
        match self.calls.get(&call.idempotency_key) {
            Some(row) => {
                return Ok(PrepareOutcome::AlreadyPrepared(row.state));
            },
            None => {},
        }
        let ghost hit = |k: Seq<char>, row: CallRowView|
            row.call.work_order_id == call@.work_order_id;
        let found = |k: &String, v: &CallRow| -> (r: bool)
            ensures (r == (v@.call.work_order_id == call@.work_order_id))
        {
            same_text(&v.call.work_order_id, &call.work_order_id)
        };
        let existing = self.calls.count_where(found, Ghost(hit));
        assert(table::only(self@.calls, hit) =~= calls_of(self@, call@.work_order_id));
        if existing as u64 >= max_operations as u64 {
            return Ok(PrepareOutcome::BudgetExhausted { max_operations });
        }
        self.calls.put(
            call.idempotency_key.clone(),
            CallRow { call: call.dup(), state: SubAttemptState::Prepared, prepared_at: now },
        );
        let _ = self.audit.append(now, "processor.prepared", &call.idempotency_key);
        Ok(PrepareOutcome::Prepared)
    }

    /// The state of a recorded call.
    pub fn call_state(&self, idempotency_key: &str) -> (r: Result<
        Option<SubAttemptState>,
        StoreError,
    >)
        requires
            self.wf(),
        ensures
            r == Ok::<Option<SubAttemptState>, StoreError>(
                if self@.calls.contains_key(idempotency_key@) {
                    Some(self@.calls[idempotency_key@].state)
                } else {
                    None
                },
            ),
    {
        match self.calls.get(&idempotency_key.to_owned()) {
            Some(row) => Ok(Some(row.state)),
            None => Ok(None),
        }
    }

    fn move_call(&mut self, idempotency_key: &str, state: SubAttemptState, now: i64)
        requires
            old(self).wf(),
            old(self)@.calls.contains_key(idempotency_key@),
        ensures
            final(self).wf(),
            final(self)@ == with_call_state(old(self)@, idempotency_key@, state, now),
    {
        let k = idempotency_key.to_owned();
        let row = match self.calls.get(&k) {
            Some(known) => Some(
                CallRow { call: known.call.dup(), state, prepared_at: known.prepared_at },
            ),
            None => None,
        };
        match row {
            Some(row) => {
                self.calls.put(k, row);
            },
            None => {},
        }
        let detail = idempotency_key.to_owned().concat(":").concat(state.as_str());
        let _ = self.audit.append(now, "processor.transition", &detail);
    }

    /// Moves a call by an event. An event that does not follow changes nothing; a
    /// call that is not known is an error.
    pub fn advance_call(&mut self, idempotency_key: &str, event: SubAttemptEvent, now: i64) -> (r:
        Result<Result<SubAttemptState, CallTransitionError>, StoreError>)
        requires
            old(self).wf(),
        ensures
            final(self).wf(),
            match r {
                Ok(moved) => old(self)@.calls.contains_key(idempotency_key@) && moved
                    == broker::next_call_state(old(self)@.calls[idempotency_key@].state, event)
                    && final(self)@ == (match moved {
                    Ok(state) => with_call_state(old(self)@, idempotency_key@, state, now),
                    Err(_) => old(self)@,
                }),
                Err(StoreError::UnknownProcessorCall(key)) => key@ == idempotency_key@
                    && !old(self)@.calls.contains_key(idempotency_key@) && final(self)@
                    == old(self)@,
                Err(_) => false,
            },
    {
        let state = match self.calls.get(&idempotency_key.to_owned()) {
            Some(row) => row.state,
            None => {
                return Err(StoreError::UnknownProcessorCall(idempotency_key.to_owned()));
            },
        };
        match next_call(state, event) {
            Ok(new_state) => {
                self.move_call(idempotency_key, new_state, now);
                Ok(Ok(new_state))
            },
            Err(e) => Ok(Err(e)),
        }
    }

    /// Leaves every call that was being sent in doubt, as a crash did: something
    /// may have left, so none is tried again by itself. Says how many there were.
    pub fn resolve_crashed_calls(&mut self, now: i64) -> (r: Result<usize, StoreError>)
        requires
            old(self).wf(),
        ensures
            final(self).wf(),
            match r {
                Ok(n) => exists|keys: Seq<Seq<char>>| #[trigger]
                    recovered_calls(old(self)@, final(self)@, keys, now) && n == keys.len(),
                Err(_) => false,
            },
    {
        let ghost v = self@;
        let ghost keep = |k: Seq<char>, row: CallRowView| row.state is Dispatching;
        let ghost le = |a: (Seq<char>, CallRowView), b: (Seq<char>, CallRowView)| true;
        let ghost show = |k: Seq<char>, row: CallRowView| k;
        let kept = |k: &String, row: &CallRow| -> (r: bool)
            ensures (r == (row@.state is Dispatching))
        {
            match row.state {
                SubAttemptState::Dispatching => true,
                _ => false,
            }
        };
        let no_later = |k: &String, v: &CallRow, l: &String, w: &CallRow| -> (r: bool)
            ensures (r)
        {
            true
        };
        let p = self.calls.ordered(kept, no_later, Ghost(keep), Ghost(le));
        let ghost rows = self.calls.entries();
        let mut keys: Vec<String> = Vec::new();
        let mut i: usize = 0;
        while i < p.len()
            invariant
                rows == self.calls.entries(),
                table::picks(p@, rows, keep, le),
                i <= p@.len(),
                keys@.len() == i,
                forall|j: int| 0 <= j < i ==> (#[trigger] keys@[j])@ == rows[p@[j] as int].0,
            decreases p@.len() - i,
        {
            assert(p@[i as int] < rows.len());
            keys.push(self.calls.key_at(p[i]).clone());
            i = i + 1;
        }
        let ghost all = text::views(keys@);
        proof {
            self.calls.lemma_entries();
            table::lemma_picks_list(p@, rows, keep, le, show, all);
            let ks = choose|ks: Seq<Seq<char>>| #[trigger]
                table::listing_keys(ks, v.calls, keep, le) && all =~= Seq::new(
                    ks.len(),
                    |i: int| show(ks[i], v.calls[ks[i]]),
                );
            assert(all =~= ks);
        }
        let mut n: usize = 0;
        assert(self@.calls =~= doubted_first(v.calls, all.take(0)));
        assert(attempts::crash_log(v.audit, all.take(0), "processor.transition"@, now) == v.audit);
        while n < keys.len()
            invariant
                all == text::views(keys@),
                v.consistent(),
                table::listing_keys(all, v.calls, keep, le),
                n <= keys@.len(),
                self.wf(),
                self@ == (StoreView {
                    calls: doubted_first(v.calls, all.take(n as int)),
                    audit: attempts::crash_log(v.audit, all.take(n as int), "processor.transition"@, now),
                    ..v
                }),
            decreases keys@.len() - n,
        {
            let ghost key = all[n as int];
            proof {
                assert(key == keys@[n as int]@);
                assert(all.contains(key));
                if all.take(n as int).contains(key) {
                    let j = choose|j: int| 0 <= j < n && all.take(n as int)[j] == key;
                    assert(all[j] == all[n as int]);
                }
                assert(all.take(n + 1).drop_last() =~= all.take(n as int));
            }
            self.move_call(&keys[n], SubAttemptState::Ambiguous, now);
            proof {
                let done = all.take(n + 1);
                assert(self@.calls =~= doubted_first(v.calls, done)) by {
                    assert forall|k: Seq<char>| v.calls.contains_key(k) implies self@.calls[k]
                        == doubted_first(v.calls, done)[k] by {
                        if k == key {
                            assert(done[n as int] == k);
                        } else {
                            if done.contains(k) {
                                let j = choose|j: int| 0 <= j < done.len() && done[j] == k;
                                assert(all.take(n as int)[j] == k);
                            }
                            if all.take(n as int).contains(k) {
                                let j = choose|j: int| 0 <= j < n && all.take(n as int)[j] == k;
                                assert(done[j] == k);
                            }
                        }
                    }
                }
                lemma_call_ambiguous_name();
                assert(self@.audit == attempts::crash_log(v.audit, done, "processor.transition"@, now));
            }
            n = n + 1;
        }
        proof {
            assert(all.take(n as int) =~= all);
            assert(doubted_first(v.calls, all) =~= calls_after_crash(v.calls));
            assert(recovered_calls(v, self@, all, now));
        }
        Ok(n)
    }
}

/// The calls, with those of `keys` left in doubt.
spec fn doubted_first(m: Map<Seq<char>, CallRowView>, keys: Seq<Seq<char>>) -> Map<
    Seq<char>,
    CallRowView,
> {
    Map::new(
        |k: Seq<char>| m.contains_key(k),
        |k: Seq<char>|
            if keys.contains(k) {
                CallRowView { state: SubAttemptState::Ambiguous, ..m[k] }
            } else {
                m[k]
            },
    )
}

proof fn lemma_call_ambiguous_name()
    ensures
        forall|id: Seq<char>|
            id + ":"@ + SubAttemptState::Ambiguous.name() == #[trigger] (id + ":ambiguous"@),
{
    reveal_strlit(":");
    reveal_strlit("ambiguous");
    reveal_strlit(":ambiguous");
    assert forall|id: Seq<char>| id + ":"@ + SubAttemptState::Ambiguous.name() == #[trigger] (id
        + ":ambiguous"@) by {
        assert(id + ":"@ + SubAttemptState::Ambiguous.name() =~= id + ":ambiguous"@);
    }
}

/// The budget of operations holds: where a work order has at most as many calls as
/// it allows, it has after every preparation, under any other work order too.
pub proof fn the_operation_budget_holds(
    v: StoreView,
    call: ProcessorCallView,
    max_operations: u32,
    now: i64,
    work_order_id: Seq<char>,
)
    requires
        v.calls.dom().finite(),
        prepare_verdict(v, call, max_operations) is Prepared,
    ensures
        calls_of(with_call(v, call, now), call.work_order_id).dom().len() <= max_operations,
        work_order_id != call.work_order_id ==> calls_of(with_call(v, call, now), work_order_id)
            == calls_of(v, work_order_id),
{
    let w = with_call(v, call, now);
    let before = calls_of(v, call.work_order_id);
    let after = calls_of(w, call.work_order_id);
    assert(before.dom().subset_of(v.calls.dom()));
    vstd::set_lib::lemma_len_subset(before.dom(), v.calls.dom());
    assert(after.dom() =~= before.dom().insert(call.idempotency_key));
    if work_order_id != call.work_order_id {
        assert(calls_of(w, work_order_id) =~= calls_of(v, work_order_id));
    }
}

/// An exact repetition of a recorded call is never refused, whatever the budget.
pub proof fn repeated_calls_are_never_over_budget(
    v: StoreView,
    call: ProcessorCallView,
    max_operations: u32,
)
    requires
        v.calls.contains_key(call.idempotency_key),
    ensures
        prepare_verdict(v, call, max_operations) == PrepareOutcome::AlreadyPrepared(
            v.calls[call.idempotency_key].state,
        ),
{
}

/// Recovery is idempotent, and leaves a call that was only prepared as it was.
pub proof fn recovery_leaves_nothing_being_sent(m: Map<Seq<char>, CallRowView>)
    ensures
        forall|k: Seq<char>| #[trigger]
            calls_after_crash(m).contains_key(k) ==> !(calls_after_crash(m)[k].state
                is Dispatching),
        forall|k: Seq<char>|
            m.contains_key(k) && m[k].state is Prepared ==> #[trigger] calls_after_crash(m)[k]
                == m[k],
        calls_after_crash(calls_after_crash(m)) == calls_after_crash(m),
{
    assert(calls_after_crash(calls_after_crash(m)) =~= calls_after_crash(m));
}

} // verus!
