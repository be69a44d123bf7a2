//! Task contracts as they are stored: the head of each task, the revisions, and
//! which tasks were reacted to.
use crate::contract::{
    Contract, Head, HeadState, HeadStateView, HeadView, LockError, ParsedContract,
    ParsedContractView, RevisionVerdict, RevisionVerdictView, StaleReason, accept_head,
    apply_revision,
};
use crate::contract;
use crate::store::rows::{
    ContractRow, ContractRowView, HeadRow, HeadRowView, ReactionRow, ReactionRowView,
};
use crate::store::{Store, StoreError, StoreView};
use crate::table::{Record, dup_option};
use crate::table;
use crate::text::{copy_bytes, is_before};
use crate::text;
use vstd::prelude::*;
use vstd::string::*;

verus! {

/// The open head of a submitted task.
#[derive(Debug, Clone, PartialEq, Eq)]
pub struct TaskHead {
    pub task_id: String,
    pub contract_id: String,
    pub revision: u64,
    pub contract_digest: String,
}

/// The view of [`TaskHead`].
#[verifier::ext_equal]
pub struct TaskHeadView {
    pub task_id: Seq<char>,
    pub contract_id: Seq<char>,
    pub revision: u64,
    pub contract_digest: Seq<char>,
}

impl View for TaskHead {
    type V = TaskHeadView;

    open spec fn view(&self) -> TaskHeadView {
        TaskHeadView {
            task_id: self.task_id@,
            contract_id: self.contract_id@,
            revision: self.revision,
            contract_digest: self.contract_digest@,
        }
    }
}

impl Record for TaskHead {
    fn dup(&self) -> (r: Self) {
        let r = TaskHead {
            task_id: self.task_id.clone(),
            contract_id: self.contract_id.clone(),
            revision: self.revision,
            contract_digest: self.contract_digest.clone(),
        };
        r
    }
}

/// The head of a task.
pub open spec fn head_state(v: StoreView, task_id: Seq<char>) -> HeadStateView {
    if v.heads.contains_key(task_id) {
        let row = v.heads[task_id];
        let head = HeadView { revision: row.revision, digest: row.digest };
        if row.locked {
            HeadStateView::Locked(head)
        } else {
            HeadStateView::Open(head)
        }
    } else {
        HeadStateView::Empty
    }
}

/// The state with a revision submitted that advances the head. The root that the
/// first proposal came from, and the context, stay those of the task. A revision
/// that is stored already stays as it is.
pub open spec fn with_revision(
    v: StoreView,
    task_id: Seq<char>,
    proposal: ParsedContractView,
    origin_root: Seq<char>,
    expires_at: i64,
) -> StoreView {
    let c = proposal.contract;
    let known = v.heads.contains_key(task_id);
    StoreView {
        heads: v.heads.insert(
            task_id,
            HeadRowView {
                contract_id: c.contract_id,
                revision: c.revision,
                digest: proposal.digest,
                locked: false,
                origin_root: if known {
                    v.heads[task_id].origin_root
                } else {
                    origin_root
                },
                context_id: if known {
                    v.heads[task_id].context_id
                } else {
                    Seq::empty()
                },
            },
        ),
        contracts: if v.contracts.contains_key(proposal.digest) {
            v.contracts
        } else {
            v.contracts.insert(
                proposal.digest,
                ContractRowView {
                    task_id,
                    contract_id: c.contract_id,
                    revision: c.revision,
                    payload: proposal.payload,
                    contract: Some(c),
                    expires_at,
                },
            )
        },
        ..v
    }
}

/// The state with the head of a task locked.
pub open spec fn with_lock(v: StoreView, task_id: Seq<char>) -> StoreView {
    StoreView {
        heads: v.heads.insert(task_id, HeadRowView { locked: true, ..v.heads[task_id] }),
        ..v
    }
}

/// A task as a list shows it.
pub open spec fn head_shown(task_id: Seq<char>, row: HeadRowView) -> TaskHeadView {
    TaskHeadView {
        task_id,
        contract_id: row.contract_id,
        revision: row.revision,
        contract_digest: row.digest,
    }
}

/// Tasks in the order of their ids.
pub open spec fn by_task(a: (Seq<char>, HeadRowView), b: (Seq<char>, HeadRowView)) -> bool {
    text::text_le(a.0, b.0)
}

/// A submitted task that awaits a decision and, where `unreacted` says so, a
/// reaction.
pub open spec fn awaits(
    v: StoreView,
    unreacted: bool,
    task_id: Seq<char>,
    row: HeadRowView,
) -> bool {
    !row.locked && (unreacted ==> !v.reactions.contains_key(task_id))
}

/// The submitted tasks that await a decision, by id; only those that were not
/// reacted to, where `unreacted` says so.
pub open spec fn tasks_listed(v: StoreView, unreacted: bool, list: Seq<TaskHeadView>) -> bool {
    table::lists(
        list,
        v.heads,
        |k: Seq<char>, row: HeadRowView| awaits(v, unreacted, k, row),
        |k: Seq<char>, row: HeadRowView| head_shown(k, row),
        |a: (Seq<char>, HeadRowView), b: (Seq<char>, HeadRowView)| by_task(a, b),
    )
}

impl Store {
    /// The head of a task.
    pub fn contract_head(&self, task_id: &str) -> (r: Result<HeadState, StoreError>)
        requires
            self.wf(),
        ensures
            match r {
                Ok(head) => head@ == head_state(self@, task_id@),
                Err(_) => false,
            },
    {
        match self.heads.get(&task_id.to_owned()) {
            None => Ok(HeadState::Empty),
            Some(row) => {
                let head = Head { revision: row.revision, digest: row.digest.clone() };
                if row.locked {
                    Ok(HeadState::Locked(head))
                } else {
                    Ok(HeadState::Open(head))
                }
            },
        }
    }

    /// Records the context of a task, if the task is known.
    pub fn set_task_context(&mut self, task_id: &str, context_id: &str) -> (r: Result<
        (),
        StoreError,
    >)
        requires
            old(self).wf(),
        ensures
            r is Ok,
            final(self).wf(),
            final(self)@ == (if old(self)@.heads.contains_key(task_id@) {
                StoreView {
                    heads: old(self)@.heads.insert(
                        task_id@,
                        HeadRowView { context_id: context_id@, ..old(self)@.heads[task_id@] },
                    ),
                    ..old(self)@
                }
            } else {
                old(self)@
            }),
    {
        let k = task_id.to_owned();
        let mut row = match self.heads.get(&k) {
            Some(row) => row.dup(),
            None => {
                return Ok(());
            },
        };
        row.context_id = context_id.to_owned();
        self.heads.put(k, row);
        Ok(())
    }

    /// The context of a task; an empty one counts as none.
    pub fn task_context(&self, task_id: &str) -> (r: Result<Option<String>, StoreError>)
        requires
            self.wf(),
        ensures
            match r {
                Ok(Some(c)) => self@.heads.contains_key(task_id@) && c@
                    == self@.heads[task_id@].context_id && c@.len() > 0,
                Ok(None) => self@.heads.contains_key(task_id@)
                    ==> self@.heads[task_id@].context_id.len() == 0,
                Err(_) => false,
            },
    {
        match self.heads.get(&task_id.to_owned()) {
            Some(row) => if row.context_id.as_str().is_empty() {
                Ok(None)
            } else {
                Ok(Some(row.context_id.clone()))
            },
            None => Ok(None),
        }
    }

    fn list_heads(&self, unreacted: bool) -> (list: Vec<TaskHead>)
        requires
            self.wf(),
        ensures
            table::lists(
                table::seen(list@),
                self@.heads,
                |k: Seq<char>, v: HeadRowView| awaits(self@, unreacted, k, v),
                |k: Seq<char>, v: HeadRowView| head_shown(k, v),
                |a: (Seq<char>, HeadRowView), b: (Seq<char>, HeadRowView)| by_task(a, b),
            ),
    {
        let ghost sv = self@;
        let ghost keep = |k: Seq<char>, v: HeadRowView| awaits(sv, unreacted, k, v);
        let ghost show = |k: Seq<char>, v: HeadRowView| head_shown(k, v);
        let ghost le = |a: (Seq<char>, HeadRowView), b: (Seq<char>, HeadRowView)| by_task(a, b);
        proof {
            text::lemma_text_le_ranks();
            self.heads.lemma_entries();
        }
        let kept = |k: &String, v: &HeadRow| -> (r: bool)
            ensures (r == awaits(self@, unreacted, k@, v@))
        {
            !v.locked && !(unreacted && self.reactions.has(k))
        };
        let no_later = |k: &String, v: &HeadRow, l: &String, w: &HeadRow| -> (r: bool)
            ensures (r == by_task((k@, v@), (l@, w@)))
        {
            !is_before(l, k)
        };
        let p = self.heads.ordered(kept, no_later, Ghost(keep), Ghost(le));
        let ghost rows = self.heads.entries();
        let mut list: Vec<TaskHead> = Vec::new();
        let mut i: usize = 0;
        while i < p.len()
            invariant
                rows == self.heads.entries(),
                table::picks(p@, rows, keep, le),
                i <= p@.len(),
                list@.len() == i,
                forall|j: int|
                    0 <= j < i ==> (#[trigger] list@[j])@ == head_shown(
                        rows[p@[j] as int].0,
                        rows[p@[j] as int].1,
                    ),
            decreases p@.len() - i,
        {
            assert(p@[i as int] < rows.len());
            let row = self.heads.value_at(p[i]);
            list.push(
                TaskHead {
                    task_id: self.heads.key_at(p[i]).clone(),
                    contract_id: row.contract_id.clone(),
                    revision: row.revision,
                    contract_digest: row.digest.clone(),
                },
            );
            i = i + 1;
        }
        proof {
            table::lemma_picks_list(p@, rows, keep, le, show, table::seen(list@));
        }
        list
    }

    /// The submitted tasks that await a decision, by id.
    pub fn list_submitted_tasks(&self) -> (r: Result<Vec<TaskHead>, StoreError>)
        requires
            self.wf(),
        ensures
            match r {
                Ok(list) => tasks_listed(self@, false, table::seen(list@)),
                Err(_) => false,
            },
    {
        Ok(self.list_heads(false))
    }

    /// The submitted tasks that await a decision and were not reacted to, by id.
    pub fn tasks_awaiting_reaction(&self) -> (r: Result<Vec<TaskHead>, StoreError>)
        requires
            self.wf(),
        ensures
            match r {
                Ok(list) => tasks_listed(self@, true, table::seen(list@)),
                Err(_) => false,
            },
    {
        Ok(self.list_heads(true))
    }

    /// Records that a task was reacted to; the first record stands.
    pub fn mark_task_reacted(&mut self, task_id: &str, now: i64) -> (r: Result<(), StoreError>)
        requires
            old(self).wf(),
        ensures
            r is Ok,
            final(self).wf(),
            final(self)@ == (if old(self)@.reactions.contains_key(task_id@) {
                old(self)@
            } else {
                StoreView {
                    reactions: old(self)@.reactions.insert(
                        task_id@,
                        ReactionRowView { reacted_at: now },
                    ),
                    ..old(self)@
                }
            }),
    {
        let k = task_id.to_owned();
        if !self.reactions.has(&k) {
            self.reactions.put(k, ReactionRow { reacted_at: now });
        }
        Ok(())
    }

    /// Submits a revision of a task. It advances the head and is stored, or it is
    /// stale and changes nothing.
    pub fn submit_revision(
        &mut self,
        task_id: &str,
        proposal: &ParsedContract,
        origin_root: &str,
        expires_at_unix: i64,
        now: i64,
    ) -> (r: Result<RevisionVerdict, StoreError>)
        requires
            old(self).wf(),
        ensures
            final(self).wf(),
            match r {
                Ok(verdict) => verdict@ == contract::revision_verdict(
                    head_state(old(self)@, task_id@),
                    proposal@,
                ) && final(self)@ == (if verdict@ is Advance {
                    with_revision(
                        old(self)@,
                        task_id@,
                        proposal@,
                        origin_root@,
                        expires_at_unix,
                    ).audited(now, "contract.submitted"@, proposal@.digest)
                } else {
                    old(self)@
                }),
                Err(_) => false,
            },
    {
        let head = match self.contract_head(task_id) {
            Ok(h) => h,
            Err(e) => {
                return Err(e);
            },
        };
        let verdict = apply_revision(&head, proposal);
        match &verdict {
            RevisionVerdict::Advance(new_head) => {
                let c = &proposal.contract;
                let k = task_id.to_owned();
                let row = match self.heads.get(&k) {
                    Some(known) => HeadRow {
                        contract_id: c.contract_id.clone(),
                        revision: new_head.revision,
                        digest: new_head.digest.clone(),
                        locked: false,
                        origin_root: known.origin_root.clone(),
                        context_id: known.context_id.clone(),
                    },
                    None => {
                        let none = String::new();
                        assert(none@ =~= Seq::<char>::empty());
                        HeadRow {
                            contract_id: c.contract_id.clone(),
                            revision: new_head.revision,
                            digest: new_head.digest.clone(),
                            locked: false,
                            origin_root: origin_root.to_owned(),
                            context_id: none,
                        }
                    },
                };
                self.heads.put(k, row);
                if !self.contracts.has(&proposal.digest) {
                    self.contracts.put(
                        proposal.digest.clone(),
                        ContractRow {
                            task_id: task_id.to_owned(),
                            contract_id: c.contract_id.clone(),
                            revision: new_head.revision,
                            payload: copy_bytes(&proposal.payload),
                            contract: Some(c.dup()),
                            expires_at: expires_at_unix,
                        },
                    );
                }
                assert(self@ =~= with_revision(
                    old(self)@,
                    task_id@,
                    proposal@,
                    origin_root@,
                    expires_at_unix,
                ));
                let _ = self.audit.append(now, "contract.submitted", &proposal.digest);
            },
            RevisionVerdict::Stale(_) => {},
        }
        Ok(verdict)
    }

    /// Locks the head of a task at a digest: the effect of a signed acceptance. A
    /// head that cannot be locked there is left as it is.
    pub fn accept_contract(&mut self, task_id: &str, accepted_digest: &str, now: i64) -> (r: Result<
        Result<(), LockError>,
        StoreError,
    >)
        requires
            old(self).wf(),
        ensures
            final(self).wf(),
            r == Ok::<Result<(), LockError>, StoreError>(
                contract::lock_verdict(head_state(old(self)@, task_id@), accepted_digest@),
            ),
            final(self)@ == (match contract::lock_verdict(
                head_state(old(self)@, task_id@),
                accepted_digest@,
            ) {
                Ok(_) => with_lock(old(self)@, task_id@).audited(
                    now,
                    "contract.accepted"@,
                    accepted_digest@,
                ),
                Err(_) => old(self)@,
            }),
    {
        let head = match self.contract_head(task_id) {
            Ok(h) => h,
            Err(e) => {
                return Err(e);
            },
        };
        match accept_head(&head, accepted_digest) {
            Ok(_) => {
                let k = task_id.to_owned();
                let row = match self.heads.get(&k) {
                    Some(known) => Some(
                        HeadRow {
                            contract_id: known.contract_id.clone(),
                            revision: known.revision,
                            digest: known.digest.clone(),
                            locked: true,
                            origin_root: known.origin_root.clone(),
                            context_id: known.context_id.clone(),
                        },
                    ),
                    None => None,
                };
                match row {
                    Some(row) => {
                        self.heads.put(k, row);
                    },
                    None => {},
                }
                assert(self@ =~= with_lock(old(self)@, task_id@));
                let _ = self.audit.append(now, "contract.accepted", accepted_digest);
                Ok(Ok(()))
            },
            Err(e) => Ok(Err(e)),
        }
    }

    /// The exact bytes of a stored revision.
    pub fn get_contract(&self, digest: &str) -> (r: Result<Option<Vec<u8>>, StoreError>)
        requires
            self.wf(),
        ensures
            match r {
                Ok(Some(payload)) => self@.contracts.contains_key(digest@) && payload@
                    == self@.contracts[digest@].payload,
                Ok(None) => !self@.contracts.contains_key(digest@),
                Err(_) => false,
            },
    {
        match self.contracts.get(&digest.to_owned()) {
            Some(row) => Ok(Some(copy_bytes(&row.payload))),
            None => Ok(None),
        }
    }

    /// The terms of a stored revision: `None` where it is not stored, `Some(None)`
    /// where it is but could not be read back.
    pub fn contract_terms(&self, digest: &str) -> (r: Option<Option<Contract>>)
        requires
            self.wf(),
        ensures
            match r {
                Some(Some(c)) => self@.contracts.contains_key(digest@)
                    && self@.contracts[digest@].contract == Some(c@),
                Some(None) => self@.contracts.contains_key(digest@)
                    && self@.contracts[digest@].contract is None,
                None => !self@.contracts.contains_key(digest@),
            },
    {
        match self.contracts.get(&digest.to_owned()) {
            Some(row) => Some(dup_option(&row.contract)),
            None => None,
        }
    }

    /// Drops the stored revisions that have expired.
    pub fn purge_expired_contracts(&mut self, now: i64) -> (r: Result<(), StoreError>)
        requires
            old(self).wf(),
        ensures
            r is Ok,
            final(self).wf(),
            final(self)@ == (StoreView {
                contracts: table::without(
                    old(self)@.contracts,
                    |k: Seq<char>, row: ContractRowView| row.expires_at <= now,
                ),
                ..old(self)@
            }),
    {
        let ghost hit = |k: Seq<char>, row: ContractRowView| row.expires_at <= now;
        let gone = |k: &String, v: &ContractRow| -> (r: bool)
            ensures (r == (v@.expires_at <= now))
        {
            v.expires_at <= now
        };
        let _ = self.contracts.remove_where(gone, Ghost(hit));
        Ok(())
    }

    /// The root that the proposal of a task came from.
    pub fn origin_root(&self, task_id: &str) -> (r: Result<Option<String>, StoreError>)
        requires
            self.wf(),
        ensures
            match r {
                Ok(Some(root)) => self@.heads.contains_key(task_id@) && root@
                    == self@.heads[task_id@].origin_root,
                Ok(None) => !self@.heads.contains_key(task_id@),
                Err(_) => false,
            },
    {
        match self.heads.get(&task_id.to_owned()) {
            Some(row) => Ok(Some(row.origin_root.clone())),
            None => Ok(None),
        }
    }
}

/// Once a contract is accepted, its task is settled: no later revision moves the
/// head, and no later acceptance either.
pub proof fn acceptance_is_final(
    v: StoreView,
    task_id: Seq<char>,
    proposal: ParsedContractView,
    digest: Seq<char>,
)
    requires
        v.heads.contains_key(task_id),
    ensures
        ({
            let w = with_lock(v, task_id);
            &&& contract::revision_verdict(head_state(w, task_id), proposal) == RevisionVerdictView::Stale(
                StaleReason::HeadLocked,
            )
            &&& contract::lock_verdict(head_state(w, task_id), digest) == Err::<(), LockError>(
                LockError::AlreadyLocked,
            )
        }),
{
}

/// A stored revision is given back as the exact bytes that were signed.
pub proof fn stored_revisions_read_back(
    v: StoreView,
    task_id: Seq<char>,
    proposal: ParsedContractView,
    origin_root: Seq<char>,
    expires_at: i64,
)
    requires
        !v.contracts.contains_key(proposal.digest),
    ensures
        with_revision(
            v,
            task_id,
            proposal,
            origin_root,
            expires_at,
        ).contracts[proposal.digest].payload == proposal.payload,
        head_state(with_revision(v, task_id, proposal, origin_root, expires_at), task_id)
            == HeadStateView::Open(
            HeadView { revision: proposal.contract.revision, digest: proposal.digest },
        ),
{
}

/// A task is offered for a reaction until it was reacted to, and never again, nor
/// after it was accepted.
pub proof fn tasks_are_offered_once(v: StoreView, task_id: Seq<char>, row: HeadRowView)
    ensures
        v.reactions.contains_key(task_id) ==> !awaits(v, true, task_id, row),
        row.locked ==> !awaits(v, true, task_id, row) && !awaits(v, false, task_id, row),
{
}

} // verus!
