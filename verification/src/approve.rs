//! Approving a task: its contract is accepted, and its work order is issued. Denying
//! it: a rejection is recorded, and nothing is issued.
use crate::authority::{IssuedWorkOrder, WorkOrder};
use crate::contract::{HeadState, Identity};
use crate::control::Problem;
use crate::control;
use crate::decision::{Decision, DecisionKind, DecisionRecord, decide};
use crate::decision;
use crate::issue::{IssueConfig, Seal, issue_for_accepted};
use crate::issue;
use crate::store::contracts;
use crate::store::{Store, StoreView};
use crate::text;
use vstd::prelude::*;

verus! {

/// How much the operator is assured of, who issues an order.
pub const ISSUER_ASSURANCE: &'static str = "local-human";

/// Under which name the daemon stands in an order.
pub const DAEMON_NAME: &'static str = "aksond";

/// Under which name the worker stands in an order.
pub const EXECUTOR_NAME: &'static str = "worker";

/// The version of the policy that orders are issued under.
pub const POLICY_VERSION: u32 = 1;

/// How many operations an order allows.
pub const MAX_OPERATIONS: u32 = 16;

/// What an approval brings along: who approves, what the operator grants, when it is
/// decided, and what is fresh and random.
pub struct Approval<'a> {
    pub performer: &'a Identity,
    pub processor: Option<&'a str>,
    pub artifacts: bool,
    pub decided_at: &'a str,
    pub nonce: &'a str,
    pub decision_id: &'a str,
}

/// The fingerprint of the certificate that is pinned for who asked for a task.
pub open spec fn requester_certificate(v: StoreView, task_id: Seq<char>) -> Option<Seq<char>> {
    if v.heads.contains_key(task_id) && v.peers.contains_key(v.heads[task_id].origin_root) {
        Some(v.peers[v.heads[task_id].origin_root].peer.identity.tls_cert.value)
    } else {
        None
    }
}

/// An order is issued with this: what the approval brings along, to the requester with
/// this certificate.
pub open spec fn is_config(config: IssueConfig<'_>, a: Approval<'_>, certificate: Seq<char>) -> bool {
    &&& config.issuer@ == a.performer@
    &&& config.issuer_assurance@ == ISSUER_ASSURANCE@
    &&& config.daemon@ == DAEMON_NAME@
    &&& config.executor@ == EXECUTOR_NAME@
    &&& config.requester_tls_sha256@ == certificate
    &&& config.nonce@ == a.nonce@
    &&& config.decision_id@ == a.decision_id@
    &&& config.policy_version == POLICY_VERSION
    &&& config.max_operations == MAX_OPERATIONS
    &&& text::view_str(config.processor_grant) == text::view_str(a.processor)
    &&& config.grant_artifacts == a.artifacts
}

/// What comes of accepting a task. One that is accepted already stays as it is.
pub open spec fn accepts<S: Fn(&Decision) -> Option<Vec<u8>>>(
    v: StoreView,
    w: StoreView,
    task_id: Seq<char>,
    a: Approval<'_>,
    sign: S,
    now: i64,
    r: Result<(), Problem>,
) -> bool {
    if contracts::head_state(v, task_id) is Locked {
        w == v && r is Ok
    } else {
        exists|d: Result<DecisionRecord, Problem>|
            #[trigger] decision::decides(
                v,
                w,
                decision::decision_due(
                    v,
                    task_id,
                    DecisionKind::Accept,
                    None,
                    None,
                    a.performer@,
                    a.decided_at@,
                ),
                sign,
                now,
                d,
            ) && match (d, r) {
                (Ok(_), Ok(())) => true,
                (Err(p), Err(q)) => p@ == q@,
                _ => false,
            }
    }
}

/// What comes of issuing the order of a task to who asked for it.
pub open spec fn issues_to_requester<O: Fn(&WorkOrder) -> Option<Seal>>(
    v: StoreView,
    w: StoreView,
    task_id: Seq<char>,
    a: Approval<'_>,
    seal: O,
    now: i64,
    r: Result<IssuedWorkOrder, Problem>,
) -> bool {
    match requester_certificate(v, task_id) {
        None => w == v && match r {
            Err(p) => p@ == control::internal_problem(),
            Ok(_) => false,
        },
        Some(certificate) => exists|config: IssueConfig<'_>|
            is_config(config, a, certificate) && issue::issues(
                v,
                w,
                #[trigger] issue::drafted(v, task_id, config, now),
                seal,
                now,
                r,
            ),
    }
}

/// What comes of an approval: the task is accepted, unless it is already, and then its
/// order is issued. Where it cannot be accepted, nothing is issued.
pub open spec fn approves<
    S: Fn(&Decision) -> Option<Vec<u8>>,
    O: Fn(&WorkOrder) -> Option<Seal>,
>(
    v: StoreView,
    w: StoreView,
    task_id: Seq<char>,
    a: Approval<'_>,
    sign: S,
    seal: O,
    now: i64,
    r: Result<IssuedWorkOrder, Problem>,
) -> bool {
    exists|u: StoreView, accepted: Result<(), Problem>|
        #[trigger] accepts(v, u, task_id, a, sign, now, accepted) && match accepted {
            Ok(()) => issues_to_requester(u, w, task_id, a, seal, now, r),
            Err(p) => w == u && match r {
                Err(q) => p@ == q@,
                Ok(_) => false,
            },
        }
}

/// Accepts a task, unless it is accepted already. `sign` signs the decision.
pub fn accept_unless_accepted<S: Fn(&Decision) -> Option<Vec<u8>>>(
    store: &mut Store,
    task_id: &str,
    a: &Approval<'_>,
    sign: S,
    now: i64,
) -> (r: Result<(), Problem>)
    requires
        old(store).wf(),
        forall|d: &Decision| call_requires(sign, (d,)),
    ensures
        final(store).wf(),
        accepts(old(store)@, final(store)@, task_id@, *a, sign, now, r),
{
    match store.contract_head(task_id) {
        Ok(HeadState::Locked(_)) => {
            return Ok(());
        },
        _ => {},
    }
    match decide(
        store,
        task_id,
        DecisionKind::Accept,
        None,
        None,
        a.performer,
        sign,
        a.decided_at,
        now,
    ) {
        Ok(_) => Ok(()),
        Err(p) => Err(p),
    }
}

/// Issues the order of an accepted task to who asked for it. `seal` authenticates the
/// order.
pub fn issue_to_requester<O: Fn(&WorkOrder) -> Option<Seal>>(
    store: &mut Store,
    task_id: &str,
    a: &Approval<'_>,
    seal: O,
    now: i64,
) -> (r: Result<IssuedWorkOrder, Problem>)
    requires
        old(store).wf(),
        forall|o: &WorkOrder| call_requires(seal, (o,)),
    ensures
        final(store).wf(),
        issues_to_requester(old(store)@, final(store)@, task_id@, *a, seal, now, r),
{
    let root = match store.origin_root(task_id) {
        Ok(Some(root)) => root,
        _ => {
            return Err(Problem::internal());
        },
    };
    let certificate = match store.get_peer_by_root(&root) {
        Ok(Some(peer)) => peer.identity.tls_cert.value,
        _ => {
            return Err(Problem::internal());
        },
    };
    let config = IssueConfig {
        issuer: a.performer,
        issuer_assurance: ISSUER_ASSURANCE,
        daemon: DAEMON_NAME,
        executor: EXECUTOR_NAME,
        requester_tls_sha256: certificate.as_str(),
        nonce: a.nonce,
        decision_id: a.decision_id,
        policy_version: POLICY_VERSION,
        max_operations: MAX_OPERATIONS,
        processor_grant: a.processor,
        grant_artifacts: a.artifacts,
    };
    assert(is_config(config, *a, certificate@));
    issue_for_accepted(store, task_id, &config, seal, now)
}

/// Accepts a task, unless it is accepted already, and issues its work order to who asked
/// for it. `sign` signs the decision, and `seal` authenticates the order.
pub fn approve_and_issue<
    S: Fn(&Decision) -> Option<Vec<u8>>,
    O: Fn(&WorkOrder) -> Option<Seal>,
>(
    store: &mut Store,
    task_id: &str,
    a: &Approval<'_>,
    sign: S,
    seal: O,
    now: i64,
) -> (r: Result<IssuedWorkOrder, Problem>)
    requires
        old(store).wf(),
        forall|d: &Decision| call_requires(sign, (d,)),
        forall|o: &WorkOrder| call_requires(seal, (o,)),
    ensures
        final(store).wf(),
        approves(old(store)@, final(store)@, task_id@, *a, sign, seal, now, r),
{
    let accepted = accept_unless_accepted(store, task_id, a, sign, now);
    let ghost u = store@;
    let ghost outcome = accepted;
    match accepted {
        Ok(()) => {
            let r = issue_to_requester(store, task_id, a, seal, now);
            assert(accepts(old(store)@, u, task_id@, *a, sign, now, outcome));
            r
        },
        Err(p) => {
            assert(accepts(old(store)@, u, task_id@, *a, sign, now, outcome));
            Err(p)
        },
    }
}

/// Denies a task: the rejection is signed and recorded, with its reason.
pub fn deny<S: Fn(&Decision) -> Option<Vec<u8>>>(
    store: &mut Store,
    task_id: &str,
    performer: &Identity,
    reason: &str,
    sign: S,
    decided_at: &str,
    now: i64,
) -> (r: Result<DecisionRecord, Problem>)
    requires
        old(store).wf(),
        forall|d: &Decision| call_requires(sign, (d,)),
    ensures
        final(store).wf(),
        decision::decides(
            old(store)@,
            final(store)@,
            decision::decision_due(
                old(store)@,
                task_id@,
                DecisionKind::Reject,
                Some(reason@),
                None,
                performer@,
                decided_at@,
            ),
            sign,
            now,
            r,
        ),
{
    decide(
        store,
        task_id,
        DecisionKind::Reject,
        Some(reason),
        None,
        performer,
        sign,
        decided_at,
        now,
    )
}

/// No order is issued for a task that is not accepted: after an approval that gave one,
/// the head is locked.
pub proof fn an_approved_task_is_accepted<
    S: Fn(&Decision) -> Option<Vec<u8>>,
    O: Fn(&WorkOrder) -> Option<Seal>,
>(
    v: StoreView,
    w: StoreView,
    task_id: Seq<char>,
    a: Approval<'_>,
    sign: S,
    seal: O,
    now: i64,
    r: Result<IssuedWorkOrder, Problem>,
)
    requires
        approves(v, w, task_id, a, sign, seal, now, r),
        r is Ok,
    ensures
        contracts::head_state(w, task_id) is Locked,
{
}

} // verus!
