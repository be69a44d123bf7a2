//! Issuing the work order of an accepted task.
//!
//! An accepted contract becomes one work order, which is claimed at once: its nonce
//! is consumed and its budget reserved. Acceptance by itself grants the two
//! capabilities that disclose nothing outward, to respond and to read the supplied
//! inputs. To use a processor or to export artifacts, the operator has to grant it
//! and the contract has to ask for it. Every bound of a grant comes from the
//! contract.
use crate::authority::{
    ArtifactExportScope, ArtifactExportScopeView, Audience, AudienceView, Budgets, BudgetsView,
    CapabilityVector, CapabilityVectorView, Grant, GrantView, IssuedWorkOrder, IssuedWorkOrderView,
    ProcessorUseScope, ProcessorUseScopeView, ReadInputsScope, ReadInputsScopeView, RequestOrigin,
    RequestOriginView, RespondScope, RespondScopeView, WorkOrder, WorkOrderView,
};
use crate::authority;
use crate::contract::{
    Capability, Contract, ContractView, Deliverable, DeliverableView, Head, HeadState,
    HeadStateView, HeadView, Identity, ResultRecipient, Validity, asks_for, validity,
};
use crate::contract;
use crate::control::{Problem, ProblemView};
use crate::control;
use crate::outside::{rfc3339, rfc3339_instant};
use crate::outside;
use crate::store::attempts::ClaimOutcome;
use crate::store::attempts;
use crate::store::contracts;
use crate::store::{Store, StoreView};
use crate::table::Record;
use crate::table;
use crate::text::{chars_of, copy_texts, text_of};
use crate::text;
use vstd::prelude::*;
use vstd::string::*;

verus! {

/// How long an attempt, and every processor call that it makes, is authorized at
/// most, in seconds.
pub const MAX_ATTEMPT_SECS: i64 = 3600;

/// What goes into a work order and is not in the contract.
pub struct IssueConfig<'a> {
    /// The local authority that issues the order.
    pub issuer: &'a Identity,
    pub issuer_assurance: &'a str,
    pub daemon: &'a str,
    pub executor: &'a str,
    /// The fingerprint of the requester's certificate.
    pub requester_tls_sha256: &'a str,
    /// The nonce that is consumed at the claim. It must be fresh.
    pub nonce: &'a str,
    pub decision_id: &'a str,
    pub policy_version: u32,
    pub max_operations: u32,
    /// The processor whose use the operator grants.
    pub processor_grant: Option<&'a str>,
    /// Whether the operator grants the export of artifacts.
    pub grant_artifacts: bool,
}

/// The digest of a work order and the tag that authenticates it.
#[derive(Debug, Clone, PartialEq, Eq)]
pub struct Seal {
    pub digest: String,
    pub mac: String,
}

/// The head and the terms of an accepted task.
pub open spec fn accepted_terms(v: StoreView, task_id: Seq<char>) -> Result<
    (HeadView, ContractView),
    ProblemView,
> {
    match contracts::head_state(v, task_id) {
        HeadStateView::Open(_) => Err(
            control::problem_of(409, "not-accepted"@, "the task has not been accepted"@),
        ),
        HeadStateView::Empty => Err(control::problem_of(404, "no-such-task"@, "no such task"@)),
        HeadStateView::Locked(head) => if !v.contracts.contains_key(head.digest) {
            Err(control::problem_of(404, "no-such-task"@, "no such task"@))
        } else {
            match v.contracts[head.digest].contract {
                Some(c) => Ok((head, c)),
                None => Err(unreadable_contract()),
            }
        },
    }
}

/// A stored contract could not be read.
pub open spec fn unreadable_contract() -> ProblemView {
    control::problem_of(500, "corrupt-contract"@, "the stored contract could not be parsed"@)
}

/// The timestamps of a contract denote no instants.
pub open spec fn unreadable_times() -> ProblemView {
    control::problem_of(500, "corrupt-contract"@, "the contract timestamps could not be parsed"@)
}

/// The smaller of two numbers.
pub open spec fn lesser(a: int, b: int) -> int {
    if a <= b {
        a
    } else {
        b
    }
}

/// The deadline of an order: the earliest of the contract's expiry, the task's
/// deadline and the longest time of an attempt. One that is past is refused.
pub open spec fn clamped_deadline(c: ContractView, now: i64) -> Result<Seq<char>, ProblemView> {
    match (outside::rfc3339_value(c.expires_at), outside::rfc3339_value(c.deadline)) {
        (Some(expires), Some(deadline)) => {
            let clamped = lesser(lesser(expires as int, deadline as int), now + MAX_ATTEMPT_SECS);
            if clamped <= now {
                Err(
                    control::problem_of(
                        409,
                        "deadline-passed"@,
                        "the contract's task deadline has already passed; it cannot be issued"@,
                    ),
                )
            } else {
                match outside::rfc3339_of(clamped) {
                    Some(text) => Ok(text),
                    None => Err(unreadable_times()),
                }
            }
        },
        _ => Err(unreadable_times()),
    }
}

/// Whether a contract can be issued at an instant.
pub open spec fn still_effective(c: ContractView, now: i64) -> Result<(), ProblemView> {
    match contract::validity_at(c, now as int) {
        Some(Validity::Valid) => Ok(()),
        Some(Validity::Expired) => Err(
            control::problem_of(
                409,
                "contract-expired"@,
                "the contract's validity window has closed; it can no longer be issued"@,
            ),
        ),
        Some(Validity::NotYetValid) => Err(
            control::problem_of(409, "contract-not-yet-valid"@, "the contract is not yet effective"@),
        ),
        None => Err(unreadable_times()),
    }
}

/// The name of the recipient of a result.
pub open spec fn recipient_name(r: ResultRecipient) -> Seq<char> {
    match r {
        ResultRecipient::RequestOrigin => "request-origin"@,
    }
}

/// What acceptance grants of the requested capabilities: to respond and to read the
/// inputs, within the bounds of the contract. The others it does not grant.
pub open spec fn granted_by_acceptance(
    c: ContractView,
    caps: Seq<Capability>,
    task_id: Seq<char>,
    digest: Seq<char>,
    deadline: Seq<char>,
) -> Seq<GrantView>
    decreases caps.len(),
{
    if caps.len() == 0 {
        Seq::empty()
    } else {
        let before = granted_by_acceptance(c, caps.drop_last(), task_id, digest, deadline);
        match caps.last() {
            Capability::Respond => before.push(
                GrantView::Respond(
                    RespondScopeView {
                        task_id,
                        message_id: c.message_id,
                        recipient: recipient_name(c.result_recipient),
                        max_responses: 1,
                        max_bytes: c.max_response_bytes,
                        deadline,
                    },
                ),
            ),
            Capability::ReadSuppliedInputs => before.push(
                GrantView::ReadSuppliedInputs(
                    ReadInputsScopeView { input_ids: c.input_ids, contract_digest: digest },
                ),
            ),
            _ => before,
        }
    }
}

/// A cost bound; none counts as zero.
pub open spec fn cost_bound(c: ContractView) -> u64 {
    match c.max_cost_microusd {
        Some(n) => n,
        None => 0,
    }
}

/// What the operator grants besides: the use of one configured processor, if the
/// contract asks for it.
pub open spec fn granted_processor(
    v: StoreView,
    c: ContractView,
    processor: Option<Seq<char>>,
) -> Result<Seq<GrantView>, ProblemView> {
    match processor {
        None => Ok(Seq::empty()),
        Some(id) => if !c.requested_capabilities.contains(Capability::ProcessorUse) {
            Err(
                control::problem_of(
                    422,
                    "processor-not-requested"@,
                    "the task did not request processor use; it cannot be granted"@,
                ),
            )
        } else if !v.processors.contains_key(id) {
            Err(
                control::problem_of(
                    404,
                    "no-such-processor"@,
                    "no processor is configured with that id (add it with `akson processor add`)"@,
                ),
            )
        } else {
            Ok(
                seq![
                    GrantView::ProcessorUse(
                        ProcessorUseScopeView {
                            processor_id: id,
                            input_ids: c.input_ids,
                            max_cost_microusd: cost_bound(c),
                            max_bytes: c.max_response_bytes,
                        },
                    ),
                ],
            )
        },
    }
}

/// How many artifacts can be exported: as many as there are deliverables, and at
/// least one.
pub open spec fn artifact_count(deliverables: nat) -> u32 {
    if deliverables == 0 {
        1
    } else {
        deliverables as u32
    }
}

/// What the operator grants besides: the export of artifacts of the deliverables'
/// media types, if the contract asks for it.
pub open spec fn granted_artifacts(c: ContractView, task_id: Seq<char>, grant: bool) -> Result<
    Seq<GrantView>,
    ProblemView,
> {
    if !grant {
        Ok(Seq::empty())
    } else if !c.requested_capabilities.contains(Capability::ArtifactExport) {
        Err(
            control::problem_of(
                422,
                "artifacts-not-requested"@,
                "the task did not request artifact export; it cannot be granted"@,
            ),
        )
    } else {
        Ok(
            seq![
                GrantView::ArtifactExport(
                    ArtifactExportScopeView {
                        recipient: recipient_name(c.result_recipient),
                        task_id,
                        media_types: c.deliverables.map_values(|d: DeliverableView| d.media_type),
                        max_count: artifact_count(c.deliverables.len()),
                        max_bytes: c.max_response_bytes,
                    },
                ),
            ],
        )
    }
}

/// The context of a task: the recorded one, else that of the contract, else none.
pub open spec fn context_of(v: StoreView, task_id: Seq<char>, c: ContractView) -> Seq<char> {
    if v.heads.contains_key(task_id) && v.heads[task_id].context_id.len() > 0 {
        v.heads[task_id].context_id
    } else {
        match c.context_id {
            Some(id) => id,
            None => Seq::empty(),
        }
    }
}

/// The id of the work order of a contract digest: `wo-` and its first 32 characters.
pub open spec fn order_id(digest: Seq<char>) -> Seq<char> {
    "wo-"@ + digest.take(lesser(digest.len() as int, 32))
}

/// No capability is granted, or one of them twice.
pub open spec fn no_grant_problem() -> ProblemView {
    control::problem_of(
        422,
        "no-grantable-capabilities"@,
        "accept grants no capability for the task; processor use and artifact export need a separate confirmation"@,
    )
}

/// All that is granted, or why the order cannot be issued.
pub open spec fn all_grants(
    v: StoreView,
    c: ContractView,
    digest: Seq<char>,
    task_id: Seq<char>,
    deadline: Seq<char>,
    processor: Option<Seq<char>>,
    artifacts: bool,
) -> Result<Seq<GrantView>, ProblemView> {
    match granted_processor(v, c, processor) {
        Err(p) => Err(p),
        Ok(uses) => match granted_artifacts(c, task_id, artifacts) {
            Err(p) => Err(p),
            Ok(exports) => {
                let grants = granted_by_acceptance(
                    c,
                    c.requested_capabilities,
                    task_id,
                    digest,
                    deadline,
                ) + uses + exports;
                if grants.len() > 0 && authority::one_of_each_kind(grants) {
                    Ok(grants)
                } else {
                    Err(no_grant_problem())
                }
            },
        },
    }
}

/// The work order of an accepted task.
pub open spec fn order_of(
    v: StoreView,
    head: HeadView,
    c: ContractView,
    task_id: Seq<char>,
    deadline: Seq<char>,
    grants: Seq<GrantView>,
    config: IssueConfig<'_>,
) -> WorkOrderView {
    WorkOrderView {
        version: 1,
        work_order_id: order_id(head.digest),
        issuer: config.issuer@,
        issuer_assurance: config.issuer_assurance@,
        audience: AudienceView { daemon: config.daemon@, executor: config.executor@ },
        request_origin: RequestOriginView {
            peer: c.requester,
            tls_certificate_sha256: config.requester_tls_sha256@,
        },
        task_id,
        context_id: context_of(v, task_id, c),
        message_id: c.message_id,
        contract_revision: head.revision,
        contract_digest: head.digest,
        capabilities: CapabilityVectorView { grants },
        input_manifest: c.input_ids,
        processor_digest: None,
        runner_digest: None,
        sandbox_digest: None,
        profile_digest: None,
        budgets: BudgetsView {
            max_cost_microusd: cost_bound(c),
            max_bytes: c.max_response_bytes,
            max_operations: config.max_operations,
        },
        evidence_slots: c.evidence_slots,
        policy_version: config.policy_version,
        decision_id: config.decision_id@,
        not_before: c.created_at,
        deadline,
        nonce: config.nonce@,
        remote_cancel: None,
    }
}

/// The work order that is due, or why there is none.
pub open spec fn drafted(
    v: StoreView,
    task_id: Seq<char>,
    config: IssueConfig<'_>,
    now: i64,
) -> Result<WorkOrderView, ProblemView> {
    match accepted_terms(v, task_id) {
        Err(p) => Err(p),
        Ok((head, c)) => match still_effective(c, now) {
            Err(p) => Err(p),
            Ok(()) => match clamped_deadline(c, now) {
                Err(p) => Err(p),
                Ok(deadline) => match all_grants(
                    v,
                    c,
                    head.digest,
                    task_id,
                    deadline,
                    text::view_str(config.processor_grant),
                    config.grant_artifacts,
                ) {
                    Err(p) => Err(p),
                    Ok(grants) => Ok(order_of(v, head, c, task_id, deadline, grants, config)),
                },
            },
        },
    }
}

/// A result of the library and the result that is stated say the same.
pub open spec fn agrees<T: View>(r: Result<T, Problem>, s: Result<T::V, ProblemView>) -> bool {
    match (r, s) {
        (Ok(x), Ok(y)) => x@ == y,
        (Err(p), Err(q)) => p@ == q,
        _ => false,
    }
}

/// The order stays within its bounds: it ends by the contract's expiry, by the
/// task's deadline and within the longest time of an attempt, and it is not past.
pub open spec fn ends_in_time(order: WorkOrderView, c: ContractView, now: i64) -> bool {
    match (outside::rfc3339_value(order.deadline), outside::rfc3339_value(c.expires_at), outside::rfc3339_value(c.deadline)) {
        (Some(end), Some(expires), Some(deadline)) => now < end <= now + MAX_ATTEMPT_SECS && end
            <= expires && end <= deadline,
        _ => false,
    }
}

fn read_accepted(store: &Store, task_id: &str) -> (r: Result<(Head, Contract), Problem>)
    requires
        store.wf(),
    ensures
        match r {
            Ok((head, c)) => accepted_terms(store@, task_id@) == Ok::<
                (HeadView, ContractView),
                ProblemView,
            >((head@, c@)),
            Err(p) => accepted_terms(store@, task_id@) == Err::<(HeadView, ContractView), ProblemView>(
                p@,
            ),
        },
{
    let head = match store.contract_head(task_id) {
        Ok(HeadState::Locked(head)) => head,
        Ok(HeadState::Open(_)) => {
            return Err(Problem::new(409, "not-accepted", "the task has not been accepted"));
        },
        Ok(HeadState::Empty) => {
            return Err(Problem::new(404, "no-such-task", "no such task"));
        },
        Err(_) => {
            return Err(Problem::internal());
        },
    };
    match store.contract_terms(&head.digest) {
        None => Err(Problem::new(404, "no-such-task", "no such task")),
        Some(None) => Err(
            Problem::new(500, "corrupt-contract", "the stored contract could not be parsed"),
        ),
        Some(Some(c)) => Ok((head, c)),
    }
}

fn check_effective(contract: &Contract, now: i64) -> (r: Result<(), Problem>)
    ensures
        match r {
            Ok(()) => still_effective(contract@, now) is Ok,
            Err(p) => still_effective(contract@, now) == Err::<(), ProblemView>(p@),
        },
{
    match validity(contract, now) {
        Some(Validity::Valid) => Ok(()),
        Some(Validity::Expired) => Err(
            Problem::new(
                409,
                "contract-expired",
                "the contract's validity window has closed; it can no longer be issued",
            ),
        ),
        Some(Validity::NotYetValid) => Err(
            Problem::new(409, "contract-not-yet-valid", "the contract is not yet effective"),
        ),
        None => Err(
            Problem::new(500, "corrupt-contract", "the contract timestamps could not be parsed"),
        ),
    }
}

/// The deadline of an order.
fn clamp_deadline(contract: &Contract, now: i64) -> (r: Result<String, Problem>)
    ensures
        agrees(r, clamped_deadline(contract@, now)),
        match r {
            Ok(text) => match (
                outside::rfc3339_value(text@),
                outside::rfc3339_value(contract@.expires_at),
                outside::rfc3339_value(contract@.deadline),
            ) {
                (Some(end), Some(expires), Some(deadline)) => now < end <= now + MAX_ATTEMPT_SECS
                    && end <= expires && end <= deadline,
                _ => false,
            },
            Err(_) => true,
        },
{
    match (rfc3339_instant(&contract.expires_at), rfc3339_instant(&contract.deadline)) {
        (Some(expires), Some(deadline)) => {
            let first: i64 = if expires <= deadline {
                expires
            } else {
                deadline
            };
            let longest: i128 = now as i128 + MAX_ATTEMPT_SECS as i128;
            let clamped: i64 = if first as i128 <= longest {
                first
            } else {
                now + MAX_ATTEMPT_SECS
            };
            if clamped <= now {
                return Err(
                    Problem::new(
                        409,
                        "deadline-passed",
                        "the contract's task deadline has already passed; it cannot be issued",
                    ),
                );
            }
            match rfc3339(clamped) {
                Some(text) => Ok(text),
                None => Err(
                    Problem::new(
                        500,
                        "corrupt-contract",
                        "the contract timestamps could not be parsed",
                    ),
                ),
            }
        },
        _ => Err(
            Problem::new(500, "corrupt-contract", "the contract timestamps could not be parsed"),
        ),
    }
}

fn recipient_str(r: ResultRecipient) -> (s: &'static str)
    ensures
        s@ == recipient_name(r),
{
    match r {
        ResultRecipient::RequestOrigin => "request-origin",
    }
}

fn accept_grants(contract: &Contract, task_id: &str, digest: &str, deadline: &str) -> (r: Vec<
    Grant,
>)
    ensures
        table::seen(r@) == granted_by_acceptance(
            contract@,
            contract@.requested_capabilities,
            task_id@,
            digest@,
            deadline@,
        ),
{
    let caps = &contract.requested_capabilities;
    let mut grants: Vec<Grant> = Vec::new();
    let mut i: usize = 0;
    assert(table::seen(grants@) =~= Seq::<GrantView>::empty());
    while i < caps.len()
        invariant
            caps@ == contract@.requested_capabilities,
            i <= caps@.len(),
            table::seen(grants@) == granted_by_acceptance(
                contract@,
                caps@.take(i as int),
                task_id@,
                digest@,
                deadline@,
            ),
        decreases caps@.len() - i,
    {
        let ghost had = table::seen(grants@);
        proof {
            assert(caps@.take(i + 1).drop_last() =~= caps@.take(i as int));
            assert(caps@.take(i + 1).last() == caps@[i as int]);
        }
        match caps[i] {
            Capability::Respond => {
                let scope = RespondScope {
                    task_id: task_id.to_owned(),
                    message_id: contract.message_id.clone(),
                    recipient: recipient_str(contract.result_recipient).to_owned(),
                    max_responses: 1,
                    max_bytes: contract.max_response_bytes,
                    deadline: deadline.to_owned(),
                };
                let ghost view = GrantView::Respond(scope@);
                grants.push(Grant::Respond(scope));
                assert(table::seen(grants@) =~= had.push(view));
            },
            Capability::ReadSuppliedInputs => {
                let scope = ReadInputsScope {
                    input_ids: copy_texts(&contract.input_ids),
                    contract_digest: digest.to_owned(),
                };
                let ghost view = GrantView::ReadSuppliedInputs(scope@);
                grants.push(Grant::ReadSuppliedInputs(scope));
                assert(table::seen(grants@) =~= had.push(view));
            },
            _ => {},
        }
        i = i + 1;
    }
    assert(caps@.take(i as int) =~= caps@);
    grants
}

fn cost_of(contract: &Contract) -> (n: u64)
    ensures
        n == cost_bound(contract@),
{
    match contract.max_cost_microusd {
        Some(n) => n,
        None => 0,
    }
}

fn media_types_of(deliverables: &Vec<Deliverable>) -> (r: Vec<String>)
    ensures
        text::views(r@) == table::seen(deliverables@).map_values(|d: DeliverableView| d.media_type),
{
    let mut r: Vec<String> = Vec::new();
    let mut i: usize = 0;
    while i < deliverables.len()
        invariant
            i <= deliverables@.len(),
            r@.len() == i,
            forall|j: int| 0 <= j < i ==> (#[trigger] r@[j])@ == deliverables@[j]@.media_type,
        decreases deliverables@.len() - i,
    {
        r.push(deliverables[i].media_type.clone());
        i = i + 1;
    }
    assert(text::views(r@) =~= table::seen(deliverables@).map_values(|d: DeliverableView| d.media_type));
    r
}

fn processor_grant(store: &Store, contract: &Contract, processor: Option<&str>) -> (r: Result<
    Option<Grant>,
    Problem,
>)
    requires
        store.wf(),
    ensures
        match (r, granted_processor(store@, contract@, text::view_str(processor))) {
            (Ok(Some(g)), Ok(s)) => s == seq![g@],
            (Ok(None), Ok(s)) => s == Seq::<GrantView>::empty(),
            (Err(p), Err(q)) => p@ == q,
            _ => false,
        },
{
    let processor_id = match processor {
        None => {
            return Ok(None);
        },
        Some(id) => id,
    };
    if !asks_for(contract, Capability::ProcessorUse) {
        return Err(
            Problem::new(
                422,
                "processor-not-requested",
                "the task did not request processor use; it cannot be granted",
            ),
        );
    }
    match store.get_processor(processor_id) {
        Ok(Some(_)) => {},
        _ => {
            return Err(
                Problem::new(
                    404,
                    "no-such-processor",
                    "no processor is configured with that id (add it with `akson processor add`)",
                ),
            );
        },
    }
    Ok(
        Some(
            Grant::ProcessorUse(
                ProcessorUseScope {
                    processor_id: processor_id.to_owned(),
                    input_ids: copy_texts(&contract.input_ids),
                    max_cost_microusd: cost_of(contract),
                    max_bytes: contract.max_response_bytes,
                },
            ),
        ),
    )
}

fn artifact_grant(contract: &Contract, task_id: &str, grant: bool) -> (r: Result<
    Option<Grant>,
    Problem,
>)
    ensures
        match (r, granted_artifacts(contract@, task_id@, grant)) {
            (Ok(Some(g)), Ok(s)) => s == seq![g@],
            (Ok(None), Ok(s)) => s == Seq::<GrantView>::empty(),
            (Err(p), Err(q)) => p@ == q,
            _ => false,
        },
{
    if !grant {
        return Ok(None);
    }
    if !asks_for(contract, Capability::ArtifactExport) {
        return Err(
            Problem::new(
                422,
                "artifacts-not-requested",
                "the task did not request artifact export; it cannot be granted",
            ),
        );
    }
    let n = contract.deliverables.len();
    assert(contract@.deliverables.len() == n);
    let max_count: u32 = if n == 0 {
        1
    } else {
        #[verifier::truncate]
        (n as u32)
    };
    let scope = ArtifactExportScope {
        recipient: recipient_str(contract.result_recipient).to_owned(),
        task_id: task_id.to_owned(),
        media_types: media_types_of(&contract.deliverables),
        max_count,
        max_bytes: contract.max_response_bytes,
    };
    Ok(Some(Grant::ArtifactExport(scope)))
}

fn draft_context(store: &Store, task_id: &str, contract: &Contract) -> (r: String)
    requires
        store.wf(),
    ensures
        r@ == context_of(store@, task_id@, contract@),
{
    match store.task_context(task_id) {
        Ok(Some(id)) => id,
        _ => match &contract.context_id {
            Some(id) => id.clone(),
            None => {
                let none = String::new();
                assert(none@ =~= Seq::<char>::empty());
                none
            },
        },
    }
}

fn order_id_for(digest: &str) -> (r: String)
    ensures
        r@ == order_id(digest@),
{
    let v = chars_of(digest);
    let n: usize = if v.len() <= 32 {
        v.len()
    } else {
        32
    };
    let head = text_of(&v, 0, n);
    assert(v@.subrange(0, n as int) =~= digest@.take(lesser(digest@.len() as int, 32)));
    "wo-".to_owned().concat(&head)
}

fn push_some(grants: &mut Vec<Grant>, more: Option<Grant>)
    ensures
        table::seen(final(grants)@) == (match more {
            Some(g) => table::seen(old(grants)@) + seq![g@],
            None => table::seen(old(grants)@) + Seq::<GrantView>::empty(),
        }),
{
    let ghost had = table::seen(grants@);
    match more {
        Some(g) => {
            let ghost view = g@;
            grants.push(g);
            assert(table::seen(grants@) =~= had + seq![view]);
        },
        None => {
            assert(had + Seq::<GrantView>::empty() =~= had);
        },
    }
}

/// Drafts the work order of an accepted task. The task must be accepted, its
/// contract effective at `now`, its deadline ahead, and something granted.
pub fn draft_order(store: &Store, task_id: &str, config: &IssueConfig<'_>, now: i64) -> (r: Result<
    WorkOrder,
    Problem,
>)
    requires
        store.wf(),
    ensures
        agrees(r, drafted(store@, task_id@, *config, now)),
        match r {
            Ok(order) => match accepted_terms(store@, task_id@) {
                Ok((_, c)) => ends_in_time(order@, c, now),
                Err(_) => false,
            },
            Err(_) => true,
        },
{
    let (head, contract) = match read_accepted(store, task_id) {
        Ok(terms) => terms,
        Err(p) => {
            return Err(p);
        },
    };
    match check_effective(&contract, now) {
        Ok(()) => {},
        Err(p) => {
            return Err(p);
        },
    }
    let deadline = match clamp_deadline(&contract, now) {
        Ok(deadline) => deadline,
        Err(p) => {
            return Err(p);
        },
    };
    let uses = match processor_grant(store, &contract, config.processor_grant) {
        Ok(g) => g,
        Err(p) => {
            return Err(p);
        },
    };
    let exports = match artifact_grant(&contract, task_id, config.grant_artifacts) {
        Ok(g) => g,
        Err(p) => {
            return Err(p);
        },
    };
    let mut grants = accept_grants(&contract, task_id, &head.digest, &deadline);
    push_some(&mut grants, uses);
    push_some(&mut grants, exports);
    assert(table::seen(grants@).len() == grants@.len());
    let capabilities = match CapabilityVector::new(grants) {
        Ok(v) => v,
        Err(_) => {
            return Err(
                Problem::new(
                    422,
                    "no-grantable-capabilities",
                    "accept grants no capability for the task; processor use and artifact export need a separate confirmation",
                ),
            );
        },
    };
    let order = WorkOrder {
        version: 1,
        work_order_id: order_id_for(&head.digest),
        issuer: config.issuer.dup(),
        issuer_assurance: config.issuer_assurance.to_owned(),
        audience: Audience {
            daemon: config.daemon.to_owned(),
            executor: config.executor.to_owned(),
        },
        request_origin: RequestOrigin {
            peer: contract.requester.dup(),
            tls_certificate_sha256: config.requester_tls_sha256.to_owned(),
        },
        task_id: task_id.to_owned(),
        context_id: draft_context(store, task_id, &contract),
        message_id: contract.message_id.clone(),
        contract_revision: head.revision,
        contract_digest: head.digest.clone(),
        capabilities,
        input_manifest: copy_texts(&contract.input_ids),
        processor_digest: None,
        runner_digest: None,
        sandbox_digest: None,
        profile_digest: None,
        budgets: Budgets {
            max_cost_microusd: cost_of(&contract),
            max_bytes: contract.max_response_bytes,
            max_operations: config.max_operations,
        },
        evidence_slots: copy_texts(&contract.evidence_slots),
        policy_version: config.policy_version,
        decision_id: config.decision_id.to_owned(),
        not_before: contract.created_at.clone(),
        deadline,
        nonce: config.nonce.to_owned(),
        remote_cancel: None,
    };
    Ok(order)
}

/// An order with its seal.
pub open spec fn sealed(order: WorkOrderView, seal: Seal) -> IssuedWorkOrderView {
    IssuedWorkOrderView { order, digest: seal.digest@, mac: seal.mac@ }
}

/// What comes of claiming a sealed order: it is claimed and kept, or was claimed
/// before, or its nonce was used for another.
pub open spec fn claims(
    v: StoreView,
    w: StoreView,
    order: WorkOrderView,
    seal: Option<Seal>,
    now: i64,
    r: Result<IssuedWorkOrder, Problem>,
) -> bool {
    match seal {
        None => w == v && match r {
            Err(p) => p@ == control::problem_of(
                500,
                "issue-failed"@,
                "the work order could not be issued"@,
            ),
            Ok(_) => false,
        },
        Some(seal) => match attempts::claim_verdict(v, order) {
            ClaimOutcome::NonceReused => w == v && match r {
                Err(p) => p@ == control::problem_of(
                    409,
                    "nonce-reused"@,
                    "the work-order nonce was already used"@,
                ),
                Ok(_) => false,
            },
            ClaimOutcome::AlreadyClaimed(_) => w == attempts::with_work_order(v, sealed(order, seal), now)
                && match r {
                Ok(issued) => issued@ == sealed(order, seal),
                Err(_) => false,
            },
            ClaimOutcome::Claimed => w == attempts::with_work_order(
                attempts::with_claim(v, order, seal.digest@, now),
                sealed(order, seal),
                now,
            ) && match r {
                Ok(issued) => issued@ == sealed(order, seal),
                Err(_) => false,
            },
        },
    }
}

/// Claims a drafted order under its seal, and keeps it. Without a seal nothing is
/// claimed.
pub fn claim_order(store: &mut Store, order: WorkOrder, seal: Option<Seal>, now: i64) -> (r: Result<
    IssuedWorkOrder,
    Problem,
>)
    requires
        old(store).wf(),
    ensures
        final(store).wf(),
        claims(old(store)@, final(store)@, order@, seal, now, r),
{
    let seal = match seal {
        Some(seal) => seal,
        None => {
            return Err(
                Problem::new(500, "issue-failed", "the work order could not be issued"),
            );
        },
    };
    match store.claim_attempt(&order, &seal.digest, now) {
        Ok(ClaimOutcome::NonceReused) => {
            return Err(
                Problem::new(409, "nonce-reused", "the work-order nonce was already used"),
            );
        },
        Ok(_) => {},
        Err(_) => {
            return Err(Problem::internal());
        },
    }
    let issued = IssuedWorkOrder { order, digest: seal.digest, mac: seal.mac };
    let _ = store.put_work_order(&issued, now);
    Ok(issued)
}

/// What comes of issuing: where an order is due, that order goes to `seal`, and what
/// comes back is claimed.
pub open spec fn issues<F: Fn(&WorkOrder) -> Option<Seal>>(
    v: StoreView,
    w: StoreView,
    due: Result<WorkOrderView, ProblemView>,
    seal: F,
    now: i64,
    r: Result<IssuedWorkOrder, Problem>,
) -> bool {
    match due {
        Err(q) => w == v && match r {
            Err(p) => p@ == q,
            Ok(_) => false,
        },
        Ok(order) => exists|o: WorkOrder, s: Option<Seal>|
            o@ == order && #[trigger] call_ensures(seal, (&o,), s) && claims(v, w, order, s, now, r),
    }
}

/// Issues and claims the work order of an accepted task. `seal` digests and
/// authenticates the order under the key of the endpoint.
pub fn issue_for_accepted<F: Fn(&WorkOrder) -> Option<Seal>>(
    store: &mut Store,
    task_id: &str,
    config: &IssueConfig<'_>,
    seal: F,
    now: i64,
) -> (r: Result<IssuedWorkOrder, Problem>)
    requires
        old(store).wf(),
        forall|o: &WorkOrder| call_requires(seal, (o,)),
    ensures
        final(store).wf(),
        issues(
            old(store)@,
            final(store)@,
            drafted(old(store)@, task_id@, *config, now),
            seal,
            now,
            r,
        ),
{
    let order = match draft_order(store, task_id, config, now) {
        Ok(order) => order,
        Err(p) => {
            return Err(p);
        },
    };
    let s = seal(&order);
    claim_order(store, order, s, now)
}

/// Acceptance grants nothing outward: without the operator's explicit grants, an
/// order allows neither a processor nor an export.
pub proof fn acceptance_discloses_nothing_outward(
    c: ContractView,
    caps: Seq<Capability>,
    task_id: Seq<char>,
    digest: Seq<char>,
    deadline: Seq<char>,
    i: int,
)
    requires
        0 <= i < granted_by_acceptance(c, caps, task_id, digest, deadline).len(),
    ensures
        ({
            let g = granted_by_acceptance(c, caps, task_id, digest, deadline)[i];
            authority::kind(g) is Respond || authority::kind(g) is ReadSuppliedInputs
        }),
    decreases caps.len(),
{
    if caps.len() > 0 {
        let before = granted_by_acceptance(c, caps.drop_last(), task_id, digest, deadline);
        if i < before.len() {
            acceptance_discloses_nothing_outward(
                c,
                caps.drop_last(),
                task_id,
                digest,
                deadline,
                i,
            );
        }
    }
}

/// An order never grants a processor or an export that the contract did not ask for
/// or the operator did not grant, and the processor is the one that the operator
/// named.
pub proof fn outward_grants_are_asked_for_and_given(
    v: StoreView,
    task_id: Seq<char>,
    config: IssueConfig<'_>,
    now: i64,
    order: WorkOrderView,
    i: int,
)
    requires
        drafted(v, task_id, config, now) == Ok::<WorkOrderView, ProblemView>(order),
        0 <= i < order.capabilities.grants.len(),
    ensures
        ({
            let g = order.capabilities.grants[i];
            let asked = accepted_terms(v, task_id)->Ok_0.1.requested_capabilities;
            &&& authority::kind(g) is ProcessorUse ==> asked.contains(Capability::ProcessorUse)
                && config.processor_grant is Some && g->ProcessorUse_0.processor_id
                == config.processor_grant->0@
            &&& authority::kind(g) is ArtifactExport ==> asked.contains(Capability::ArtifactExport)
                && config.grant_artifacts
        }),
{
    let (head, c) = accepted_terms(v, task_id)->Ok_0;
    let deadline = clamped_deadline(c, now)->Ok_0;
    let base = granted_by_acceptance(c, c.requested_capabilities, task_id, head.digest, deadline);
    if i < base.len() {
        acceptance_discloses_nothing_outward(
            c,
            c.requested_capabilities,
            task_id,
            head.digest,
            deadline,
            i,
        );
    }
}

/// Only an accepted task whose contract is effective is issued an order.
pub proof fn only_accepted_and_effective_tasks_are_issued(
    v: StoreView,
    task_id: Seq<char>,
    config: IssueConfig<'_>,
    now: i64,
)
    requires
        drafted(v, task_id, config, now) is Ok,
    ensures
        contracts::head_state(v, task_id) is Locked,
        contract::validity_at(accepted_terms(v, task_id)->Ok_0.1, now as int) == Some(Validity::Valid),
{
}

} // verus!
