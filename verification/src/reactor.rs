//! Reacting to tasks that arrive.
//!
//! To receive a task is inert: no authority comes of it. What comes after runs here, in
//! sweeps, and once for each task. A task is approved without being asked for only
//! under a standing approval of the operator that it fits in every way; whatever is
//! missing or unexpected leaves it for a decision. Then a command can be told of it.
use crate::clock::trusted_now;
use crate::clock;
use crate::contract::{Capability, ContractView, HeadState, HeadStateView, HeadView, asks_for};
use crate::identity::PeerStatus;
use crate::store::contracts::TaskHeadView;
use crate::store::contracts;
use crate::store::peers::AutoApprovePolicyView;
use crate::store::peers;
use crate::store::rows::ReactionRowView;
use crate::store::{Store, StoreError, StoreView};
use crate::table::Record;
use crate::table;
use crate::text::same_text;
use crate::text;
use vstd::prelude::*;

verus! {

/// How long to wait between two sweeps, in milliseconds.
pub const POLL_INTERVAL_MILLIS: u64 = 750;

/// A task that a sweep found.
#[derive(Debug, Clone, PartialEq, Eq)]
pub struct PendingTask {
    pub task_id: String,
    /// The time at which it is to be approved, if it is.
    pub approve_at: Option<i64>,
}

/// The view of [`PendingTask`].
#[verifier::ext_equal]
pub struct PendingTaskView {
    pub task_id: Seq<char>,
    pub approve_at: Option<i64>,
}

impl View for PendingTask {
    type V = PendingTaskView;

    open spec fn view(&self) -> PendingTaskView {
        PendingTaskView {
            task_id: self.task_id@,
            approve_at: self.approve_at,
        }
    }
}

impl Record for PendingTask {
    fn dup(&self) -> (r: Self) {
        let r = PendingTask {
            task_id: self.task_id.clone(),
            approve_at: self.approve_at,
        };
        r
    }
}

/// The task asks to disclose something outward.
pub open spec fn discloses(c: ContractView) -> bool {
    c.requested_capabilities.contains(Capability::ProcessorUse)
        || c.requested_capabilities.contains(Capability::ArtifactExport)
}

/// A task fits a standing approval: it is of an allowed type, within the limit of
/// bytes, and discloses nothing outward.
pub open spec fn fits(c: ContractView, policy: AutoApprovePolicyView) -> bool {
    policy.task_types.contains(c.task_type) && c.max_response_bytes <= policy.max_response_bytes
        && !discloses(c)
}

/// A contract that came from a root is covered by a standing approval: behind the root
/// is an active peer, for whose root the operator set an approval that the contract fits.
/// What the contract says of its requester is not looked at.
pub open spec fn is_covered(v: StoreView, root: Seq<char>, c: ContractView) -> bool {
    v.peers.contains_key(root) && v.peers[root].status is Active && v.auto_approve.contains_key(
        root,
    ) && fits(c, peers::policy_of(v.auto_approve[root]))
}

/// A task may be approved without being asked for.
pub open spec fn may_auto_approve(v: StoreView, task_id: Seq<char>) -> bool {
    match contracts::head_state(v, task_id) {
        HeadStateView::Open(head) => v.contracts.contains_key(head.digest)
            && match v.contracts[head.digest].contract {
            Some(c) => is_covered(v, v.heads[task_id].origin_root, c),
            None => false,
        },
        _ => false,
    }
}

fn is_listed(list: &Vec<String>, text: &str) -> (r: bool)
    ensures
        r == text::views(list@).contains(text@),
{
    let ghost all = text::views(list@);
    let mut i: usize = 0;
    while i < list.len()
        invariant
            all == text::views(list@),
            i <= all.len(),
            forall|j: int| 0 <= j < i ==> (#[trigger] all[j]) != text@,
        decreases all.len() - i,
    {
        assert(all[i as int] == list@[i as int]@);
        if same_text(&list[i], text) {
            return true;
        }
        i = i + 1;
    }
    false
}

/// Whether a task may be approved without being asked for.
pub fn auto_approve_if_allowed(store: &Store, task_id: &str) -> (r: bool)
    requires
        store.wf(),
    ensures
        r == may_auto_approve(store@, task_id@),
{
    let head = match store.contract_head(task_id) {
        Ok(HeadState::Open(head)) => head,
        _ => {
            return false;
        },
    };
    let contract = match store.contract_terms(&head.digest) {
        Some(Some(contract)) => contract,
        _ => {
            return false;
        },
    };
    let root = match store.origin_root(task_id) {
        Ok(Some(root)) => root,
        _ => {
            return false;
        },
    };
    match store.peer_status_by_root(&root) {
        Ok(Some(PeerStatus::Active)) => {},
        _ => {
            return false;
        },
    }
    let policy = match store.auto_approve_for_root(&root) {
        Ok(Some(policy)) => policy,
        _ => {
            return false;
        },
    };
    is_listed(&policy.task_types, &contract.task_type) && contract.max_response_bytes
        <= policy.max_response_bytes && !asks_for(&contract, Capability::ProcessorUse) && !asks_for(
        &contract,
        Capability::ArtifactExport,
    )
}

/// What a sweep finds of a task.
pub open spec fn pending_of(v: StoreView, now: Option<i64>, head: TaskHeadView) -> PendingTaskView {
    PendingTaskView {
        task_id: head.task_id,
        approve_at: if may_auto_approve(v, head.task_id) {
            now
        } else {
            None
        },
    }
}

/// What a sweep finds at a time: the tasks that await a reaction, in their order.
/// Where no time is trusted, none is approved.
pub open spec fn swept(v: StoreView, now: Option<i64>, list: Seq<PendingTaskView>) -> bool {
    exists|heads: Seq<TaskHeadView>| #[trigger]
        contracts::tasks_listed(v, true, heads) && list == heads.map_values(
            |h: TaskHeadView| pending_of(v, now, h),
        )
}

/// The trusted time, where the clock is believed.
pub open spec fn now_of(v: StoreView, wall: i64) -> Option<i64> {
    match clock::time_now(v, wall) {
        Ok(now) => Some(now),
        Err(_) => None,
    }
}

/// Begins a sweep: finds the tasks that await a reaction, and decides which of them
/// are approved.
pub fn begin_sweep(store: &mut Store, wall: i64) -> (r: Result<Vec<PendingTask>, StoreError>)
    requires
        old(store).wf(),
    ensures
        final(store).wf(),
        final(store)@ == clock::timed(old(store)@, wall),
        match r {
            Ok(list) => swept(final(store)@, now_of(old(store)@, wall), table::seen(list@)),
            Err(_) => false,
        },
{
    let now: Option<i64> = match trusted_now(store, wall) {
        Ok(now) => Some(now),
        Err(_) => None,
    };
    let ghost after = store@;
    let heads = match store.tasks_awaiting_reaction() {
        Ok(heads) => heads,
        Err(e) => {
            return Err(e);
        },
    };
    let mut r: Vec<PendingTask> = Vec::new();
    let mut i: usize = 0;
    while i < heads.len()
        invariant
            store.wf(),
            store@ == after,
            i <= heads@.len(),
            r@.len() == i,
            forall|j: int| 0 <= j < i ==> (#[trigger] r@[j])@ == pending_of(after, now, heads@[j]@),
        decreases heads@.len() - i,
    {
        let allowed = auto_approve_if_allowed(store, &heads[i].task_id);
        r.push(
            PendingTask {
                task_id: heads[i].task_id.clone(),
                approve_at: if allowed {
                    now
                } else {
                    None
                },
            },
        );
        i = i + 1;
    }
    assert(table::seen(r@) =~= table::seen(heads@).map_values(|h: TaskHeadView| pending_of(after, now, h)));
    Ok(r)
}

/// The state with a task marked, unless it is.
pub open spec fn with_reaction(v: StoreView, task_id: Seq<char>, now: i64) -> StoreView {
    if v.reactions.contains_key(task_id) {
        v
    } else {
        StoreView {
            reactions: v.reactions.insert(task_id, ReactionRowView { reacted_at: now }),
            ..v
        }
    }
}

/// The state with each of the tasks marked.
pub open spec fn with_reactions(v: StoreView, tasks: Seq<PendingTaskView>, now: i64) -> StoreView
    decreases tasks.len(),
{
    if tasks.len() == 0 {
        v
    } else {
        with_reaction(with_reactions(v, tasks.drop_last(), now), tasks.last().task_id, now)
    }
}

/// Ends a sweep: marks its tasks. This comes after a command was told of them, so that
/// a crash in between tells it again rather than not at all.
pub fn end_sweep(store: &mut Store, tasks: &Vec<PendingTask>, wall: i64) -> (r: Result<
    (),
    StoreError,
>)
    requires
        old(store).wf(),
    ensures
        r is Ok,
        final(store).wf(),
        final(store)@ == with_reactions(old(store)@, table::seen(tasks@), wall),
{
    let ghost before = store@;
    let ghost all = table::seen(tasks@);
    let mut i: usize = 0;
    assert(all.take(0) =~= Seq::<PendingTaskView>::empty());
    while i < tasks.len()
        invariant
            store.wf(),
            all == table::seen(tasks@),
            i <= all.len(),
            store@ == with_reactions(before, all.take(i as int), wall),
        decreases all.len() - i,
    {
        proof {
            assert(all.take(i + 1).drop_last() =~= all.take(i as int));
            assert(all.take(i + 1).last() == tasks@[i as int]@);
        }
        match store.mark_task_reacted(&tasks[i].task_id, wall) {
            Ok(()) => {},
            Err(e) => {
                return Err(e);
            },
        }
        i = i + 1;
    }
    assert(all.take(i as int) =~= all);
    Ok(())
}

/// What a command is told of a task, in its environment: the task, and whether it was
/// approved. Nothing of the task becomes part of the command.
pub fn hook_environment(task_id: &str, auto: bool) -> (r: (
    (String, String),
    (String, String),
))
    ensures
        r.0.0@ == "AKSON_TASK"@,
        r.0.1@ == task_id@,
        r.1.0@ == "AKSON_TASK_AUTO"@,
        r.1.1@ == (if auto {
            "1"@
        } else {
            "0"@
        }),
{
    let flag = if auto {
        "1".to_owned()
    } else {
        "0".to_owned()
    };
    (("AKSON_TASK".to_owned(), task_id.to_owned()), ("AKSON_TASK_AUTO".to_owned(), flag))
}

/// What discloses anything outward is never approved without being asked for, whatever
/// the standing approval says.
pub proof fn disclosure_is_always_asked_for(v: StoreView, task_id: Seq<char>, head: HeadView, c: ContractView)
    requires
        contracts::head_state(v, task_id) == HeadStateView::Open(head),
        v.contracts.contains_key(head.digest),
        v.contracts[head.digest].contract == Some(c),
        discloses(c),
    ensures
        !may_auto_approve(v, task_id),
{
}

/// Without a standing approval for where it came from, and from anyone but an active
/// peer, nothing is approved without being asked for.
pub proof fn approval_stands_or_is_asked_for(
    v: StoreView,
    task_id: Seq<char>,
    head: HeadView,
    c: ContractView,
)
    requires
        contracts::head_state(v, task_id) == HeadStateView::Open(head),
        v.contracts.contains_key(head.digest),
        v.contracts[head.digest].contract == Some(c),
        may_auto_approve(v, task_id),
    ensures
        v.auto_approve.contains_key(v.heads[task_id].origin_root),
        v.peers.contains_key(v.heads[task_id].origin_root),
        v.peers[v.heads[task_id].origin_root].status is Active,
{
}

/// A task that was decided is not approved again.
pub proof fn decided_tasks_are_left_alone(v: StoreView, task_id: Seq<char>)
    requires
        !(contracts::head_state(v, task_id) is Open),
    ensures
        !may_auto_approve(v, task_id),
{
}

/// Where the clock is not believed, a sweep approves nothing.
pub proof fn doubtful_time_approves_nothing(
    v: StoreView,
    wall: i64,
    list: Seq<PendingTaskView>,
    i: int,
)
    requires
        swept(clock::timed(v, wall), now_of(v, wall), list),
        clock::time_now(v, wall) is Err,
        0 <= i < list.len(),
    ensures
        list[i].approve_at is None,
{
}

/// After a sweep ended, each of its tasks is marked.
pub proof fn swept_tasks_are_marked(v: StoreView, tasks: Seq<PendingTaskView>, now: i64, i: int)
    requires
        0 <= i < tasks.len(),
    ensures
        with_reactions(v, tasks, now).reactions.contains_key(tasks[i].task_id),
    decreases tasks.len(),
{
    if i < tasks.len() - 1 {
        swept_tasks_are_marked(v, tasks.drop_last(), now, i);
    }
}

} // verus!
