//! A work order grants what was asked for and given, within what the contract bounds, and so
//! lets out what the contract was made for.
use crate::authority::{
    AttemptEvent, AttemptState, CapabilityComponent, GrantView, IssuedWorkOrder, WorkOrderView,
};
use crate::authority;
use crate::contract::{Capability, ContractView};
use crate::contract;
use crate::control::{Problem, ProblemView};
use crate::gate::{GateRejectView, OutputChannel, ProposedOutputView};
use crate::gate;
use crate::issue::{IssueConfig, Seal};
use crate::issue;
use crate::outside;
use crate::store::attempts;
use crate::store::contracts;
use crate::store::StoreView;
use vstd::prelude::*;

verus! {

/// What acceptance gives of the requested capabilities: each that is given was asked for, is
/// one of the two that disclose nothing outward, and is bounded by the contract.
proof fn lemma_accepted_grants(
    c: ContractView,
    caps: Seq<Capability>,
    task_id: Seq<char>,
    digest: Seq<char>,
    deadline: Seq<char>,
    i: int,
)
    requires
        0 <= i < issue::granted_by_acceptance(c, caps, task_id, digest, deadline).len(),
    ensures
        match issue::granted_by_acceptance(c, caps, task_id, digest, deadline)[i] {
            GrantView::Respond(s) => caps.contains(Capability::Respond) && s.task_id == task_id
                && s.message_id == c.message_id && s.recipient == "request-origin"@
                && s.max_responses == 1 && s.max_bytes == c.max_response_bytes && s.deadline
                == deadline,
            GrantView::ReadSuppliedInputs(s) => caps.contains(Capability::ReadSuppliedInputs)
                && s.input_ids == c.input_ids && s.contract_digest == digest,
            _ => false,
        },
    decreases caps.len(),
{
    if caps.len() > 0 {
        let rest = caps.drop_last();
        assert(forall|x: Capability| rest.contains(x) ==> caps.contains(x)) by {
            assert forall|x: Capability| rest.contains(x) implies caps.contains(x) by {
                let j = choose|j: int| 0 <= j < rest.len() && rest[j] == x;
                assert(caps[j] == x);
            }
        }
        assert(caps.contains(caps[caps.len() - 1]));
        if i < issue::granted_by_acceptance(c, rest, task_id, digest, deadline).len() {
            lemma_accepted_grants(c, rest, task_id, digest, deadline, i);
        }
    }
}

proof fn lemma_asked_is_granted(
    c: ContractView,
    caps: Seq<Capability>,
    task_id: Seq<char>,
    digest: Seq<char>,
    deadline: Seq<char>,
) -> (at: (int, int))
    ensures
        caps.contains(Capability::Respond) ==> 0 <= at.0 < issue::granted_by_acceptance(
            c,
            caps,
            task_id,
            digest,
            deadline,
        ).len() && issue::granted_by_acceptance(c, caps, task_id, digest, deadline)[at.0] is Respond,
        caps.contains(Capability::ReadSuppliedInputs) ==> 0 <= at.1 < issue::granted_by_acceptance(
            c,
            caps,
            task_id,
            digest,
            deadline,
        ).len() && issue::granted_by_acceptance(
            c,
            caps,
            task_id,
            digest,
            deadline,
        )[at.1] is ReadSuppliedInputs,
    decreases caps.len(),
{
    if caps.len() == 0 {
        (0, 0)
    } else {
        let rest = caps.drop_last();
        let at = lemma_asked_is_granted(c, rest, task_id, digest, deadline);
        let before = issue::granted_by_acceptance(c, rest, task_id, digest, deadline);
        assert forall|x: Capability| caps.contains(x) && x != caps.last() implies rest.contains(x) by {
            let j = choose|j: int| 0 <= j < caps.len() && caps[j] == x;
            assert(rest[j] == x);
        }
        let a = if caps.last() is Respond {
            before.len() as int
        } else {
            at.0
        };
        let b = if caps.last() is ReadSuppliedInputs {
            before.len() as int
        } else {
            at.1
        };
        (a, b)
    }
}

/// Every grant of an order is bounded by the contract that was accepted, is for its task, and
/// was asked for; what goes outward was also given by the operator.
pub proof fn every_grant_is_bounded_by_the_contract(
    v: StoreView,
    task_id: Seq<char>,
    config: IssueConfig<'_>,
    now: i64,
    order: WorkOrderView,
    i: int,
)
    requires
        issue::drafted(v, task_id, config, now) == Ok::<WorkOrderView, ProblemView>(order),
        0 <= i < order.capabilities.grants.len(),
    ensures
        ({
            let (head, c) = issue::accepted_terms(v, task_id)->Ok_0;
            match order.capabilities.grants[i] {
                GrantView::Respond(s) => {
                    &&& c.requested_capabilities.contains(Capability::Respond)
                    &&& s.max_bytes == c.max_response_bytes
                    &&& s.max_responses == 1
                    &&& s.recipient == "request-origin"@
                    &&& s.task_id == task_id
                    &&& s.message_id == c.message_id
                    &&& s.deadline == order.deadline
                },
                GrantView::ReadSuppliedInputs(s) => {
                    &&& c.requested_capabilities.contains(Capability::ReadSuppliedInputs)
                    &&& s.input_ids == c.input_ids
                    &&& s.contract_digest == v.heads[task_id].digest
                },
                GrantView::ProcessorUse(s) => {
                    &&& c.requested_capabilities.contains(Capability::ProcessorUse)
                    &&& config.processor_grant is Some
                    &&& s.processor_id == config.processor_grant->0@
                    &&& v.processors.contains_key(s.processor_id)
                    &&& s.input_ids == c.input_ids
                    &&& s.max_bytes == c.max_response_bytes
                    &&& c.max_cost_microusd is Some ==> s.max_cost_microusd
                        == c.max_cost_microusd->0
                    &&& c.max_cost_microusd is None ==> s.max_cost_microusd == 0
                },
                GrantView::ArtifactExport(s) => {
                    &&& c.requested_capabilities.contains(Capability::ArtifactExport)
                    &&& config.grant_artifacts
                    &&& s.recipient == "request-origin"@
                    &&& s.task_id == task_id
                    &&& s.max_bytes == c.max_response_bytes
                    &&& s.media_types.len() == c.deliverables.len()
                    &&& forall|j: int|
                        0 <= j < c.deliverables.len() ==> #[trigger] s.media_types[j]
                            == c.deliverables[j].media_type
                    &&& 1 <= c.deliverables.len() <= u32::MAX ==> s.max_count
                        == c.deliverables.len()
                    &&& c.deliverables.len() == 0 ==> s.max_count == 1
                },
            }
        }),
{
    let (head, c) = issue::accepted_terms(v, task_id)->Ok_0;
    let base = issue::granted_by_acceptance(
        c,
        c.requested_capabilities,
        task_id,
        head.digest,
        order.deadline,
    );
    if i < base.len() {
        lemma_accepted_grants(
            c,
            c.requested_capabilities,
            task_id,
            head.digest,
            order.deadline,
            i,
        );
    }
}

/// What was asked for and may be given is given: to respond and to read the inputs whenever the
/// contract asks for it, a processor and an export whenever the operator grants it. An order
/// has no two grants of a kind.
pub proof fn what_is_asked_for_and_given_is_granted(
    v: StoreView,
    task_id: Seq<char>,
    config: IssueConfig<'_>,
    now: i64,
    order: WorkOrderView,
)
    requires
        issue::drafted(v, task_id, config, now) == Ok::<WorkOrderView, ProblemView>(order),
    ensures
        ({
            let c = issue::accepted_terms(v, task_id)->Ok_0.1;
            let grants = order.capabilities.grants;
            &&& c.requested_capabilities.contains(Capability::Respond) ==> exists|i: int|
                0 <= i < grants.len() && #[trigger] grants[i] is Respond
            &&& c.requested_capabilities.contains(Capability::ReadSuppliedInputs) ==> exists|i: int|
                0 <= i < grants.len() && #[trigger] grants[i] is ReadSuppliedInputs
            &&& config.processor_grant is Some ==> exists|i: int|
                0 <= i < grants.len() && #[trigger] grants[i] is ProcessorUse
            &&& config.grant_artifacts ==> exists|i: int|
                0 <= i < grants.len() && #[trigger] grants[i] is ArtifactExport
            &&& grants.len() > 0
            &&& forall|i: int, j: int|
                0 <= i < j < grants.len() ==> authority::kind(#[trigger] grants[i])
                    != authority::kind(#[trigger] grants[j])
        }),
{
    let (head, c) = issue::accepted_terms(v, task_id)->Ok_0;
    let grants = order.capabilities.grants;
    let base = issue::granted_by_acceptance(
        c,
        c.requested_capabilities,
        task_id,
        head.digest,
        order.deadline,
    );
    let uses = issue::granted_processor(v, c, crate::text::view_str(config.processor_grant))->Ok_0;
    let exports = issue::granted_artifacts(c, task_id, config.grant_artifacts)->Ok_0;
    assert(grants == base + uses + exports);
    let at = lemma_asked_is_granted(c, c.requested_capabilities, task_id, head.digest, order.deadline);
    if c.requested_capabilities.contains(Capability::Respond) {
        assert(grants[at.0] is Respond);
    }
    if c.requested_capabilities.contains(Capability::ReadSuppliedInputs) {
        assert(grants[at.1] is ReadSuppliedInputs);
    }
    if config.processor_grant is Some {
        assert(grants[base.len() as int] is ProcessorUse);
    }
    if config.grant_artifacts {
        assert(grants[(base.len() + uses.len()) as int] is ArtifactExport);
    }
}

proof fn lemma_first_of_a_kind(grants: Seq<GrantView>, i: int)
    requires
        authority::one_of_each_kind(grants),
        0 <= i < grants.len(),
    ensures
        authority::grant_of(grants, authority::kind(grants[i])) == Some(grants[i]),
    decreases grants.len(),
{
    if i > 0 {
        let rest = grants.drop_first();
        assert(authority::kind(grants[0]) != authority::kind(grants[i]));
        assert forall|a: int, b: int| 0 <= a < b < rest.len() implies authority::kind(
            #[trigger] rest[a],
        ) != authority::kind(#[trigger] rest[b]) by {
            assert(rest[a] == grants[a + 1] && rest[b] == grants[b + 1]);
        }
        assert(rest[i - 1] == grants[i]);
        lemma_first_of_a_kind(rest, i - 1);
    }
}

/// The response that a contract was made for is let out: where the contract asks for it, one
/// response to whom the request came from passes under the order exactly where it is no larger
/// than the contract allows.
pub proof fn the_agreed_response_is_let_out(
    v: StoreView,
    task_id: Seq<char>,
    config: IssueConfig<'_>,
    now: i64,
    order: WorkOrderView,
    out: ProposedOutputView,
)
    requires
        issue::drafted(v, task_id, config, now) == Ok::<WorkOrderView, ProblemView>(order),
        issue::accepted_terms(v, task_id)->Ok_0.1.requested_capabilities.contains(
            Capability::Respond,
        ),
        out.channel is Response,
        out.recipient == "request-origin"@,
    ensures
        (gate::rejection(order.capabilities.grants, seq![out], 0) is None) <==> out.bytes
            <= issue::accepted_terms(v, task_id)->Ok_0.1.max_response_bytes,
{
    what_is_asked_for_and_given_is_granted(v, task_id, config, now, order);
    let grants = order.capabilities.grants;
    let i = choose|i: int| 0 <= i < grants.len() && #[trigger] grants[i] is Respond;
    every_grant_is_bounded_by_the_contract(v, task_id, config, now, order, i);
    lemma_first_of_a_kind(grants, i);
    assert(seq![out].take(1) =~= seq![out]);
    reveal_with_fuel(gate::on_channel, 2);
    assert(seq![out].drop_last().len() == 0);
}

/// The artifact that a contract was made for is let out: where it was asked for and granted, one
/// artifact of a deliverable's media type to whom the request came from passes exactly where it
/// is no larger than the contract allows.
pub proof fn the_agreed_artifact_is_let_out(
    v: StoreView,
    task_id: Seq<char>,
    config: IssueConfig<'_>,
    now: i64,
    order: WorkOrderView,
    out: ProposedOutputView,
    j: int,
)
    requires
        issue::drafted(v, task_id, config, now) == Ok::<WorkOrderView, ProblemView>(order),
        config.grant_artifacts,
        out.channel is Artifact,
        out.recipient == "request-origin"@,
        0 <= j < issue::accepted_terms(v, task_id)->Ok_0.1.deliverables.len() <= u32::MAX,
        out.media_type == issue::accepted_terms(v, task_id)->Ok_0.1.deliverables[j].media_type,
    ensures
        (gate::rejection(order.capabilities.grants, seq![out], 0) is None) <==> out.bytes
            <= issue::accepted_terms(v, task_id)->Ok_0.1.max_response_bytes,
{
    what_is_asked_for_and_given_is_granted(v, task_id, config, now, order);
    let grants = order.capabilities.grants;
    let i = choose|i: int| 0 <= i < grants.len() && #[trigger] grants[i] is ArtifactExport;
    every_grant_is_bounded_by_the_contract(v, task_id, config, now, order, i);
    lemma_first_of_a_kind(grants, i);
    assert(grants[i]->ArtifactExport_0.media_types[j] == out.media_type);
    assert(seq![out].take(1) =~= seq![out]);
    reveal_with_fuel(gate::on_channel, 2);
    assert(seq![out].drop_last().len() == 0);
}

/// Nothing is let out on a channel that the order does not grant, nor to anyone else than whom
/// the request came from, nor larger than the contract allows.
pub proof fn nothing_else_is_let_out(
    v: StoreView,
    task_id: Seq<char>,
    config: IssueConfig<'_>,
    now: i64,
    order: WorkOrderView,
    outputs: Seq<ProposedOutputView>,
    k: int,
)
    requires
        issue::drafted(v, task_id, config, now) == Ok::<WorkOrderView, ProblemView>(order),
        0 <= k < outputs.len(),
        gate::rejection(order.capabilities.grants, outputs, k) is None,
    ensures
        ({
            let c = issue::accepted_terms(v, task_id)->Ok_0.1;
            &&& outputs[k].recipient == "request-origin"@
            &&& outputs[k].bytes <= c.max_response_bytes
            &&& outputs[k].channel is Response ==> c.requested_capabilities.contains(
                Capability::Respond,
            )
            &&& outputs[k].channel is Artifact ==> config.grant_artifacts
                && c.requested_capabilities.contains(Capability::ArtifactExport) && exists|j: int|
                0 <= j < c.deliverables.len() && (#[trigger] c.deliverables[j]).media_type
                    == outputs[k].media_type
        }),
{
    let grants = order.capabilities.grants;
    let c = issue::accepted_terms(v, task_id)->Ok_0.1;
    let wanted = if outputs[k].channel is Response {
        CapabilityComponent::Respond
    } else {
        CapabilityComponent::ArtifactExport
    };
    let i = lemma_found_among(grants, wanted);
    every_grant_is_bounded_by_the_contract(v, task_id, config, now, order, i);
    if outputs[k].channel is Artifact {
        let s = grants[i]->ArtifactExport_0;
        let j = choose|j: int| 0 <= j < s.media_types.len() && s.media_types[j] == outputs[k].media_type;
        assert(c.deliverables[j].media_type == s.media_types[j]);
    }
}

proof fn lemma_found_among(grants: Seq<GrantView>, c: CapabilityComponent) -> (i: int)
    ensures
        authority::grant_of(grants, c) is Some ==> 0 <= i < grants.len() && authority::grant_of(
            grants,
            c,
        ) == Some(grants[i]) && authority::kind(grants[i]) == c,
    decreases grants.len(),
{
    if grants.len() == 0 {
        0
    } else if authority::kind(grants[0]) == c {
        0
    } else {
        1 + lemma_found_among(grants.drop_first(), c)
    }
}

/// An order is of the task and the contract that was accepted, and says so: it names them, the
/// message that asked, the inputs, the evidence that is due, its budgets, and whom it is for.
/// The rest is what the endpoint issues it with. It begins with the contract and is for one
/// nonce. It is effective within the contract, for an hour at most.
pub proof fn an_order_is_of_the_accepted_contract(
    v: StoreView,
    task_id: Seq<char>,
    config: IssueConfig<'_>,
    now: i64,
    order: WorkOrderView,
)
    requires
        issue::drafted(v, task_id, config, now) == Ok::<WorkOrderView, ProblemView>(order),
    ensures
        ({
            let head = v.heads[task_id];
            let c = v.contracts[head.digest].contract->0;
            &&& v.heads.contains_key(task_id) && head.locked
            &&& v.contracts.contains_key(head.digest)
            &&& issue::accepted_terms(v, task_id)->Ok_0.1 == c
            &&& order.version == 1
            &&& order.task_id == task_id
            &&& order.contract_digest == head.digest
            &&& order.contract_revision == head.revision
            &&& order.message_id == c.message_id
            &&& order.input_manifest == c.input_ids
            &&& order.evidence_slots == c.evidence_slots
            &&& order.not_before == c.created_at
            &&& order.request_origin.peer == c.requester
            &&& order.request_origin.tls_certificate_sha256 == config.requester_tls_sha256@
            &&& head.context_id.len() > 0 ==> order.context_id == head.context_id
            &&& head.context_id.len() == 0 && c.context_id is Some ==> order.context_id
                == c.context_id->0
            &&& order.budgets.max_bytes == c.max_response_bytes
            &&& order.budgets.max_operations == config.max_operations
            &&& c.max_cost_microusd is Some ==> order.budgets.max_cost_microusd
                == c.max_cost_microusd->0
            &&& c.max_cost_microusd is None ==> order.budgets.max_cost_microusd == 0
            &&& order.issuer == config.issuer@
            &&& order.issuer_assurance == config.issuer_assurance@
            &&& order.audience.daemon == config.daemon@
            &&& order.audience.executor == config.executor@
            &&& order.nonce == config.nonce@
            &&& order.decision_id == config.decision_id@
            &&& order.policy_version == config.policy_version
            &&& order.processor_digest is None && order.runner_digest is None
            &&& order.sandbox_digest is None && order.profile_digest is None
            &&& order.remote_cancel is None
            &&& head.digest.len() >= 32 ==> order.work_order_id == "wo-"@ + head.digest.take(32)
        }),
{
}

/// An order ends at an instant: after now, by an hour from now, by the contract's expiry and by
/// its deadline; and no sooner than one of these asks for. It is issued only where the contract
/// has begun and not expired.
pub proof fn an_order_ends_in_time(
    v: StoreView,
    task_id: Seq<char>,
    config: IssueConfig<'_>,
    now: i64,
    order: WorkOrderView,
)
    requires
        issue::drafted(v, task_id, config, now) == Ok::<WorkOrderView, ProblemView>(order),
    ensures
        ({
            let c = issue::accepted_terms(v, task_id)->Ok_0.1;
            let created = outside::rfc3339_value(c.created_at);
            let expires = outside::rfc3339_value(c.expires_at);
            let deadline = outside::rfc3339_value(c.deadline);
            &&& created is Some && expires is Some && deadline is Some
            &&& created->0 <= now < expires->0
            &&& exists|end: int|
                #[trigger] outside::rfc3339_of(end) == Some(order.deadline) && now < end && end <= now
                    + 3600 && end <= expires->0 && end <= deadline->0 && (end == now + 3600 || end
                    == expires->0 || end == deadline->0)
        }),
{
    let c = issue::accepted_terms(v, task_id)->Ok_0.1;
    let end = issue::lesser(
        issue::lesser(
            outside::rfc3339_value(c.expires_at)->0 as int,
            outside::rfc3339_value(c.deadline)->0 as int,
        ),
        now + 3600,
    );
    assert(outside::rfc3339_of(end) == Some(order.deadline));
}

/// A task that is accepted, effective and not past its end is issued an order, where it asks for
/// something that acceptance gives, once each, and the operator grants nothing besides.
pub proof fn an_accepted_task_is_issued_an_order(
    v: StoreView,
    task_id: Seq<char>,
    config: IssueConfig<'_>,
    now: i64,
    c: ContractView,
)
    requires
        v.heads.contains_key(task_id),
        v.heads[task_id].locked,
        v.contracts.contains_key(v.heads[task_id].digest),
        v.contracts[v.heads[task_id].digest].contract == Some(c),
        outside::rfc3339_value(c.created_at) is Some,
        outside::rfc3339_value(c.expires_at) is Some,
        outside::rfc3339_value(c.deadline) is Some,
        outside::rfc3339_value(c.created_at)->0 <= now < outside::rfc3339_value(c.expires_at)->0,
        now < outside::rfc3339_value(c.deadline)->0,
        forall|end: int| now < end <= now + 3600 ==> (#[trigger] outside::rfc3339_of(end)) is Some,
        c.requested_capabilities == seq![Capability::Respond] || c.requested_capabilities
            == seq![Capability::Respond, Capability::ReadSuppliedInputs],
        config.processor_grant is None,
        !config.grant_artifacts,
    ensures
        issue::drafted(v, task_id, config, now) is Ok,
{
    reveal_with_fuel(issue::granted_by_acceptance, 3);
    let caps = c.requested_capabilities;
    assert(caps.drop_last().drop_last().len() == 0 || caps.len() == 1);
    if caps.len() == 2 {
        assert(caps.drop_last() =~= seq![Capability::Respond]);
        assert(caps.drop_last().last() is Respond);
        assert(caps.drop_last().drop_last().len() == 0);
    }
}

/// A sealed order is claimed once and kept as it was drafted: the attempt at it reserves its
/// budget and consumes its nonce, and the order that is given back is the one that is kept.
pub proof fn a_sealed_order_is_claimed_and_kept(
    v: StoreView,
    w: StoreView,
    order: WorkOrderView,
    seal: Seal,
    now: i64,
    r: Result<IssuedWorkOrder, Problem>,
)
    requires
        issue::claims(v, w, order, Some(seal), now, r),
    ensures
        ({
            let id = order.work_order_id;
            let used = exists|x: Seq<char>| #[trigger]
                v.attempts.contains_key(x) && v.attempts[x].nonce == order.nonce;
            &&& (r is Err) <==> (!v.attempts.contains_key(id) && used)
            &&& r is Err ==> w == v && r->Err_0@.status == 409
            &&& r is Ok ==> r->Ok_0@.order == order && r->Ok_0@.digest == seal.digest@
                && r->Ok_0@.mac == seal.mac@
            &&& r is Ok && !v.work_orders.contains_key(id) ==> w.work_orders.contains_key(id)
                && w.work_orders[id].issued.order == order && w.work_orders[id].issued.digest
                == seal.digest@ && w.work_orders[id].issued.mac == seal.mac@
                && w.work_orders[id].issued_at == now
            &&& v.work_orders.contains_key(id) ==> w.work_orders == v.work_orders
            &&& v.attempts.contains_key(id) ==> w.attempts == v.attempts
            &&& r is Ok && !v.attempts.contains_key(id) ==> {
                let a = w.attempts[id];
                &&& w.attempts.contains_key(id)
                &&& a.state is Claimed
                &&& a.nonce == order.nonce
                &&& a.task_id == order.task_id
                &&& a.work_order_digest == seal.digest@
                &&& a.budgets == order.budgets
                &&& a.deadline == order.deadline
                &&& a.claimed_at == now
            }
            &&& forall|x: Seq<char>| x != id ==> (#[trigger] w.attempts.contains_key(x)
                == v.attempts.contains_key(x)) && w.attempts[x] == v.attempts[x]
        }),
{
}

/// Without a seal nothing is claimed.
pub proof fn without_a_seal_nothing_is_claimed(
    v: StoreView,
    w: StoreView,
    order: WorkOrderView,
    now: i64,
    r: Result<IssuedWorkOrder, Problem>,
)
    requires
        issue::claims(v, w, order, None, now, r),
    ensures
        r is Err,
        r->Err_0@.status == 500,
        w == v,
{
}

/// An attempt runs one way: claimed, then run, then ended, as succeeded or failed; a crash on
/// the way leaves it in doubt, and it can be called off until it has ended. Nothing follows an
/// end.
pub proof fn an_attempt_runs_one_way(s: AttemptState, e: AttemptEvent)
    ensures
        match authority::next_state(s, e) {
            Ok(n) => {
                &&& n is Claimed <==> s is Pending && e is Claim
                &&& n is Running <==> s is Claimed && e is Start
                &&& n is Succeeded <==> s is Running && e is Succeed
                &&& n is Failed <==> s is Running && e is Fail
                &&& n is Ambiguous <==> (s is Claimed || s is Running) && e is Crash
                &&& n is Cancelled <==> e is Cancel
                &&& !(n is Pending)
                &&& s is Pending || s is Claimed || s is Running
            },
            Err(_) => {
                ||| s is Succeeded || s is Failed || s is Ambiguous || s is Cancelled
                ||| !(e is Cancel) && !(s is Pending && e is Claim) && !(s is Claimed && e is Start)
                    && !(s is Claimed && e is Crash) && !(s is Running && (e is Succeed || e is Fail
                    || e is Crash))
            },
        },
{
}

/// A result is committed where the attempt is under way, and then found again: under the
/// attempt, of the task, with the digest and the manifest that were given. It changes no other
/// attempt, and is not committed where the attempt has ended otherwise.
pub proof fn a_result_is_found_again(
    v: StoreView,
    work_order_id: Seq<char>,
    task_id: Seq<char>,
    bundle_digest: Seq<char>,
    manifest: Seq<u8>,
    now: i64,
)
    requires
        v.attempts.contains_key(work_order_id),
    ensures
        ({
            let s = v.attempts[work_order_id].state;
            let w = attempts::with_result(v, work_order_id, task_id, bundle_digest, manifest, now);
            let row = w.results[work_order_id];
            &&& (attempts::completion_verdict(s) is Completed) <==> (s is Claimed || s is Running)
            &&& (attempts::completion_verdict(s) is AlreadyCompleted) <==> s is Succeeded
            &&& w.results.contains_key(work_order_id)
            &&& row.task_id == task_id
            &&& row.bundle_digest == bundle_digest
            &&& row.manifest == manifest
            &&& row.completed_at == now
            &&& w.attempts[work_order_id].state is Succeeded
            &&& w.attempts[work_order_id].nonce == v.attempts[work_order_id].nonce
            &&& w.attempts[work_order_id].task_id == v.attempts[work_order_id].task_id
            &&& forall|x: Seq<char>| x != work_order_id ==> (#[trigger] w.attempts.contains_key(x)
                == v.attempts.contains_key(x)) && w.attempts[x] == v.attempts[x]
            &&& w.audit.records.len() == v.audit.records.len() + 2
        }),
{
}

/// A crash leaves in doubt what was under way, and nothing else: each attempt keeps what it is
/// at, and those that were claimed or running are ambiguous.
pub proof fn a_crash_leaves_in_doubt_what_was_under_way(
    v: StoreView,
    w: StoreView,
    ids: Seq<Seq<char>>,
    now: i64,
    k: Seq<char>,
)
    requires
        attempts::recovered_attempts(v, w, ids, now),
    ensures
        w.attempts.contains_key(k) == v.attempts.contains_key(k),
        v.attempts.contains_key(k) ==> {
            let before = v.attempts[k];
            let after = w.attempts[k];
            &&& after.nonce == before.nonce && after.task_id == before.task_id
            &&& after.work_order_digest == before.work_order_digest
            &&& after.budgets == before.budgets && after.deadline == before.deadline
            &&& before.state is Claimed || before.state is Running ==> after.state is Ambiguous
                && ids.contains(k)
            &&& !(before.state is Claimed || before.state is Running) ==> after == before
                && !ids.contains(k)
        },
        w.results == v.results,
        w.work_orders == v.work_orders,
{
}

/// Outputs on the two channels are counted apart: what is on one does not use up what is granted
/// for the other.
pub proof fn channels_are_counted_apart(
    outputs: Seq<ProposedOutputView>,
    out: ProposedOutputView,
    channel: OutputChannel,
)
    ensures
        gate::on_channel(outputs.push(out), channel) == gate::on_channel(outputs, channel) + (
        if out.channel == channel {
            1nat
        } else {
            0nat
        }),
{
    assert(outputs.push(out).drop_last() =~= outputs);
}

/// An output is refused for what is wrong with it: its channel is not granted, or it goes to
/// another than the grant says, or is of a media type that is not granted, or is too large, or is
/// one too many.
pub proof fn a_refused_output_is_wrong(
    grants: Seq<GrantView>,
    outputs: Seq<ProposedOutputView>,
    i: int,
)
    requires
        0 <= i < outputs.len(),
    ensures
        ({
            let out = outputs[i];
            let wanted = if out.channel is Response {
                CapabilityComponent::Respond
            } else {
                CapabilityComponent::ArtifactExport
            };
            let grant = authority::grant_of(grants, wanted);
            match gate::rejection(grants, outputs, i) {
                None => grant is Some,
                Some(GateRejectView::NoGrant(c)) => c == wanted && (grant is Some ==> authority::kind(
                    grant->0,
                ) != wanted),
                Some(GateRejectView::Recipient { allowed, got }) => got == out.recipient && allowed
                    != got,
                Some(GateRejectView::MediaType { got }) => got == out.media_type && out.channel
                    is Artifact && !(grant->0->ArtifactExport_0).media_types.contains(got),
                Some(GateRejectView::Size { max, got }) => got == out.bytes && max < got,
                Some(GateRejectView::Count { max }) => gate::on_channel(
                    outputs.take(i + 1),
                    out.channel,
                ) > max,
            }
        }),
{
}

/// Why there is no order is said: the task is not there or not accepted, its contract is not
/// effective or its deadline is past, or something is granted that was not asked for or is not
/// there.
pub proof fn an_order_is_refused_for_this(
    v: StoreView,
    task_id: Seq<char>,
    config: IssueConfig<'_>,
    now: i64,
)
    ensures
        ({
            let r = issue::drafted(v, task_id, config, now);
            let kind = "urn:akson:error:"@;
            let head = v.heads[task_id];
            let c = v.contracts[head.digest].contract->0;
            let known = v.heads.contains_key(task_id);
            let terms = known && head.locked && v.contracts.contains_key(head.digest)
                && v.contracts[head.digest].contract is Some;
            let created = outside::rfc3339_value(c.created_at);
            let expires = outside::rfc3339_value(c.expires_at);
            let deadline = outside::rfc3339_value(c.deadline);
            let dated = created is Some && expires is Some && deadline is Some;
            let effective = terms && dated && created->0 <= now < expires->0;
            let open = effective && now < deadline->0;
            &&& !known ==> (r matches Err(p) && p.status == 404 && p.type_ == kind + "no-such-task"@)
            &&& known && !head.locked ==> (r matches Err(p) && p.status == 409 && p.type_ == kind
                + "not-accepted"@)
            &&& terms && dated && now >= expires->0 && now >= created->0 ==> (r matches Err(p) && p.status
                == 409 && p.type_ == kind + "contract-expired"@)
            &&& terms && dated && now < created->0 ==> (r matches Err(p) && p.status == 409 && p.type_
                == kind + "contract-not-yet-valid"@)
            &&& effective && now >= deadline->0 ==> (r matches Err(p) && p.status == 409 && p.type_ == kind
                + "deadline-passed"@)
            &&& open && outside::rfc3339_of(
                issue::lesser(issue::lesser(expires->0 as int, deadline->0 as int), now + 3600),
            ) is Some && config.processor_grant is Some && !c.requested_capabilities.contains(
                Capability::ProcessorUse,
            ) ==> (r matches Err(p) && p.status == 422 && p.type_ == kind + "processor-not-requested"@)
            &&& open && outside::rfc3339_of(
                issue::lesser(issue::lesser(expires->0 as int, deadline->0 as int), now + 3600),
            ) is Some && config.processor_grant is None && config.grant_artifacts
                && !c.requested_capabilities.contains(Capability::ArtifactExport) ==> (r matches Err(p)
                && p.status == 422 && p.type_ == kind + "artifacts-not-requested"@)
        }),
{
}

} // verus!
