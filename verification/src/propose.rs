//! Submitting a proposal that was read and verified. It is recorded once, with the
//! response that a repetition gets; nothing is decided by that, and nothing is started.
use crate::contract::{ParsedContract, ParsedContractView, RevisionVerdict, apply_revision};
use crate::contract;
use crate::delivery::{CoveredValues, CoveredValuesView};
use crate::store::contracts;
use crate::store::inbox::{Receipt, ReceiptView};
use crate::store::inbox;
use crate::store::rows::{HeadRowView, InputRowView};
use crate::store::{Store, StoreView};
use crate::table::Record;
use crate::table;
use crate::text::copy_bytes;
use vstd::prelude::*;

verus! {

/// Under this class the response to a proposal is recorded.
pub const TASK_CLASS: &'static str = "task";

/// An input that came with a proposal.
#[derive(Debug, Clone, PartialEq, Eq)]
pub struct ProposedInput {
    pub input_id: String,
    pub media_type: String,
    pub sha256: String,
    pub payload: Vec<u8>,
}

/// The view of [`ProposedInput`].
#[verifier::ext_equal]
pub struct ProposedInputView {
    pub input_id: Seq<char>,
    pub media_type: Seq<char>,
    pub sha256: Seq<char>,
    pub payload: Seq<u8>,
}

impl View for ProposedInput {
    type V = ProposedInputView;

    open spec fn view(&self) -> ProposedInputView {
        ProposedInputView {
            input_id: self.input_id@,
            media_type: self.media_type@,
            sha256: self.sha256@,
            payload: self.payload@,
        }
    }
}

impl Record for ProposedInput {
    fn dup(&self) -> (r: Self) {
        let r = ProposedInput {
            input_id: self.input_id.clone(),
            media_type: self.media_type.clone(),
            sha256: self.sha256.clone(),
            payload: copy_bytes(&self.payload),
        };
        r
    }
}

/// A proposal that was read and verified: the task that it is of, its terms, its inputs
/// in their order, and the response to it.
#[derive(Debug, Clone, PartialEq, Eq)]
pub struct Proposal {
    pub task_id: String,
    pub context_id: String,
    pub parsed: ParsedContract,
    pub expires_at: i64,
    pub inputs: Vec<ProposedInput>,
    pub response: Vec<u8>,
}

/// The view of [`Proposal`].
#[verifier::ext_equal]
pub struct ProposalView {
    pub task_id: Seq<char>,
    pub context_id: Seq<char>,
    pub parsed: ParsedContractView,
    pub expires_at: i64,
    pub inputs: Seq<ProposedInputView>,
    pub response: Seq<u8>,
}

impl View for Proposal {
    type V = ProposalView;

    open spec fn view(&self) -> ProposalView {
        ProposalView {
            task_id: self.task_id@,
            context_id: self.context_id@,
            parsed: self.parsed@,
            expires_at: self.expires_at,
            inputs: table::seen(self.inputs@),
            response: self.response@,
        }
    }
}

/// What came of submitting a proposal.
#[derive(Debug, Clone, PartialEq, Eq)]
pub enum Submission {
    /// It was recorded, and its task awaits a decision.
    Submitted,
    /// It is a repetition: this was the response.
    Duplicate(Vec<u8>),
    /// The same message id came with another value.
    Conflict,
    /// It does not follow the head of its task. Nothing was recorded.
    Stale,
}

/// A number as a column holds it.
pub open spec fn column_of(n: int) -> i64 {
    if n <= i64::MAX {
        n as i64
    } else {
        i64::MAX
    }
}

fn column(n: usize) -> (r: i64)
    ensures
        r == column_of(n as int),
{
    if n as u128 <= i64::MAX as u128 {
        n as i64
    } else {
        i64::MAX
    }
}

/// The state with an input stored. The first one of an id stands.
pub open spec fn with_input(
    v: StoreView,
    task_id: Seq<char>,
    input: ProposedInputView,
    ordinal: i64,
    now: i64,
) -> StoreView {
    let k = (task_id, input.input_id);
    (StoreView {
        task_inputs: if v.task_inputs.contains_key(k) {
            v.task_inputs
        } else {
            v.task_inputs.insert(
                k,
                InputRowView {
                    ordinal,
                    media_type: input.media_type,
                    byte_length: column_of(input.payload.len() as int),
                    sha256: input.sha256,
                    payload: input.payload,
                },
            )
        },
        ..v
    }).audited(now, "task.input_stored"@, task_id)
}

/// The state with the inputs of a proposal stored, in their order.
pub open spec fn with_inputs(
    v: StoreView,
    task_id: Seq<char>,
    inputs: Seq<ProposedInputView>,
    now: i64,
) -> StoreView
    decreases inputs.len(),
{
    if inputs.len() == 0 {
        v
    } else {
        with_input(
            with_inputs(v, task_id, inputs.drop_last(), now),
            task_id,
            inputs.last(),
            column_of(inputs.len() - 1),
            now,
        )
    }
}

/// The state with the context of a task noted.
pub open spec fn with_context(v: StoreView, task_id: Seq<char>, context_id: Seq<char>) -> StoreView {
    StoreView {
        heads: v.heads.insert(task_id, HeadRowView { context_id, ..v.heads[task_id] }),
        ..v
    }
}

/// The state with the terms of a proposal recorded that came from a root: the request
/// with its response, the revision, and the context of the task.
pub open spec fn with_terms(
    v: StoreView,
    covered: CoveredValuesView,
    body: Seq<u8>,
    origin_root: Seq<char>,
    p: ProposalView,
    now: i64,
) -> StoreView {
    let received = inbox::with_request(
        v,
        covered,
        body,
        p.response,
        Some(p.task_id),
        TASK_CLASS@,
        now,
    );
    let advanced = contracts::with_revision(
        received,
        p.task_id,
        p.parsed,
        origin_root,
        p.expires_at,
    ).audited(now, "contract.submitted"@, p.parsed.digest);
    with_context(advanced, p.task_id, p.context_id)
}

/// The state with a proposal submitted that came from a root.
pub open spec fn with_proposal(
    v: StoreView,
    covered: CoveredValuesView,
    body: Seq<u8>,
    origin_root: Seq<char>,
    p: ProposalView,
    now: i64,
) -> StoreView {
    with_inputs(with_terms(v, covered, body, origin_root, p, now), p.task_id, p.inputs, now)
}

/// What comes of submitting a proposal. A repetition gets the response that was recorded,
/// a changed one is a conflict, and one that does not follow the head of its task is
/// stale: none of them changes anything.
pub open spec fn submits(
    v: StoreView,
    w: StoreView,
    covered: CoveredValuesView,
    body: Seq<u8>,
    origin_root: Seq<char>,
    p: ProposalView,
    now: i64,
    r: Submission,
) -> bool {
    match inbox::receipt_of(v, covered) {
        ReceiptView::Duplicate { response, .. } => w == v && match r {
            Submission::Duplicate(saved) => saved@ == response,
            _ => false,
        },
        ReceiptView::Conflict => w == v && r is Conflict,
        ReceiptView::Fresh => if contract::revision_verdict(
            contracts::head_state(v, p.task_id),
            p.parsed,
        ) is Advance {
            w == with_proposal(v, covered, body, origin_root, p, now) && r is Submitted
        } else {
            w == v && r is Stale
        },
    }
}

/// Submits a proposal that was read and verified. `origin_root` is the root that the
/// transport authenticated.
pub fn submit_proposal(
    store: &mut Store,
    covered: &CoveredValues,
    body: &[u8],
    origin_root: &str,
    p: &Proposal,
    now: i64,
) -> (r: Submission)
    requires
        old(store).wf(),
    ensures
        final(store).wf(),
        submits(
            old(store)@,
            final(store)@,
            covered@,
            body@,
            origin_root@,
            p@,
            now,
            r,
        ),
{
    match store.peek(covered) {
        Ok(Receipt::Fresh) => {},
        Ok(Receipt::Duplicate { task_id, response }) => {
            return Submission::Duplicate(response);
        },
        _ => {
            return Submission::Conflict;
        },
    }
    let head = match store.contract_head(&p.task_id) {
        Ok(head) => head,
        Err(_) => {
            return Submission::Stale;
        },
    };
    match apply_revision(&head, &p.parsed) {
        RevisionVerdict::Advance(_) => {},
        _ => {
            return Submission::Stale;
        },
    }
    let _ = store.receive_request(
        covered,
        body,
        &p.response,
        Some(p.task_id.as_str()),
        TASK_CLASS,
        now,
    );
    let _ = store.submit_revision(&p.task_id, &p.parsed, origin_root, p.expires_at, now);
    let _ = store.set_task_context(&p.task_id, &p.context_id);
    let ghost noted = store@;
    let ghost all = table::seen(p.inputs@);
    let mut i: usize = 0;
    assert(all.take(0) =~= Seq::<ProposedInputView>::empty());
    while i < p.inputs.len()
        invariant
            store.wf(),
            all == table::seen(p.inputs@),
            i <= p.inputs@.len(),
            store@ == with_inputs(noted, p.task_id@, all.take(i as int), now),
        decreases p.inputs@.len() - i,
    {
        let input = &p.inputs[i];
        let _ = store.put_task_input(
            &p.task_id,
            &input.input_id,
            column(i),
            &input.media_type,
            column(input.payload.len()),
            &input.sha256,
            &input.payload,
            now,
        );
        proof {
            let more = all.take(i + 1);
            assert(more.drop_last() =~= all.take(i as int));
            assert(more.last() == input@);
        }
        i = i + 1;
    }
    assert(all.take(i as int) =~= all);
    Submission::Submitted
}

proof fn lemma_inputs_change_nothing_else(
    v: StoreView,
    task_id: Seq<char>,
    inputs: Seq<ProposedInputView>,
    now: i64,
)
    ensures
        ({
            let w = with_inputs(v, task_id, inputs, now);
            &&& w.heads == v.heads
            &&& w.attempts == v.attempts
            &&& w.work_orders == v.work_orders
            &&& w.results == v.results
            &&& w.calls == v.calls
            &&& w.inbox == v.inbox
            &&& w.commitment_key == v.commitment_key
        }),
    decreases inputs.len(),
{
    if inputs.len() > 0 {
        lemma_inputs_change_nothing_else(v, task_id, inputs.drop_last(), now);
    }
}

/// Arrival is not execution: whatever a proposal holds, its task is left to a decision,
/// and no order is issued, no attempt claimed and no processor called.
pub proof fn arrival_starts_nothing(
    v: StoreView,
    w: StoreView,
    covered: CoveredValuesView,
    body: Seq<u8>,
    origin_root: Seq<char>,
    p: ProposalView,
    now: i64,
    r: Submission,
)
    requires
        submits(v, w, covered, body, origin_root, p, now, r),
    ensures
        w.attempts == v.attempts,
        w.work_orders == v.work_orders,
        w.results == v.results,
        w.calls == v.calls,
        r is Submitted ==> contracts::head_state(w, p.task_id) is Open,
{
    let terms = with_terms(v, covered, body, origin_root, p, now);
    lemma_inputs_change_nothing_else(terms, p.task_id, p.inputs, now);
}

/// A proposal that is sent again gets the response of the first time, and nothing else
/// happens.
pub proof fn a_second_sending_is_a_repetition(
    v: StoreView,
    w: StoreView,
    x: StoreView,
    covered: CoveredValuesView,
    body: Seq<u8>,
    origin_root: Seq<char>,
    p: ProposalView,
    now: i64,
    later: i64,
    first: Submission,
    second: Submission,
)
    requires
        submits(v, w, covered, body, origin_root, p, now, first),
        first is Submitted,
        submits(w, x, covered, body, origin_root, p, later, second),
    ensures
        x == w,
        second matches Submission::Duplicate(saved) && saved@ == p.response,
{
    let terms = with_terms(v, covered, body, origin_root, p, now);
    lemma_inputs_change_nothing_else(terms, p.task_id, p.inputs, now);
}

} // verus!
