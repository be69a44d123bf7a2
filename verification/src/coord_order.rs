//! What holds of staged disclosures across calls: a staging is disclosed once, a receipt
//! is spent once, and the feed tells of each spending once.
use crate::clock;
use crate::control::Problem;
use crate::control;
use crate::coord::StageReferenceView;
use crate::coord_dispatch::{CarryOrderView, DispatchReply, DispatchStep};
use crate::coord_dispatch;
use crate::coord_egress::CarriageView;
use crate::coord_stage::{ConsentReply, StageReply};
use crate::coord_stage;
use crate::store::opening;
use crate::store::staging;
use crate::store;
use crate::store::{CoordEventView, ExternalCheckpoint, StoreView};
use vstd::prelude::*;

verus! {

/// The event tells that a receipt was spent on a dispatch.
pub open spec fn tells_of(e: CoordEventView, receipt_id: Seq<char>) -> bool {
    e.kind is Dispatched && e.consent_receipt == Some(receipt_id)
}

/// The events that tell that a receipt was spent.
pub open spec fn spendings(events: Seq<CoordEventView>, receipt_id: Seq<char>) -> Seq<CoordEventView> {
    events.filter(|e: CoordEventView| tells_of(e, receipt_id))
}

/// The dispatch under a key has spent a receipt.
pub open spec fn spent_under(v: StoreView, receipt_id: Seq<char>, key: Seq<char>) -> bool {
    v.dispatches.contains_key(key) && v.dispatches[key].receipt_id == receipt_id
}

/// Some dispatch has spent a receipt.
pub open spec fn was_spent(v: StoreView, receipt_id: Seq<char>) -> bool {
    exists|key: Seq<char>| #[trigger] spent_under(v, receipt_id, key)
}

/// The dispatch under a key is of a staging.
pub open spec fn dispatched_under(v: StoreView, stage_ref: Seq<char>, key: Seq<char>) -> bool {
    v.dispatches.contains_key(key) && v.dispatches[key].stage_ref == stage_ref
}

/// The feed tells of each spending once, and of no other.
pub open spec fn told_once(v: StoreView) -> bool {
    forall|receipt_id: Seq<char>| (#[trigger] spendings(v.events, receipt_id)).len() == (if was_spent(
        v,
        receipt_id,
    ) {
        1nat
    } else {
        0nat
    })
}

/// No two dispatches are of one staging.
pub open spec fn dispatched_once(v: StoreView) -> bool {
    forall|stage_ref: Seq<char>, a: Seq<char>, b: Seq<char>|
        #[trigger] dispatched_under(v, stage_ref, a) && #[trigger] dispatched_under(v, stage_ref, b)
            ==> a == b
}

/// No two live receipts are for one staging.
pub open spec fn consented_once(v: StoreView) -> bool {
    forall|stage_ref: Seq<char>, a: Seq<char>, b: Seq<char>|
        #[trigger] staging::is_live_receipt(v, a, stage_ref) && #[trigger] staging::is_live_receipt(
            v,
            b,
            stage_ref,
        ) ==> a == b
}

/// A staging that was dispatched has no live receipt.
pub open spec fn dispatched_is_settled(v: StoreView) -> bool {
    forall|stage_ref: Seq<char>, key: Seq<char>, receipt_id: Seq<char>|
        #[trigger] dispatched_under(v, stage_ref, key) ==> !#[trigger] staging::is_live_receipt(
            v,
            receipt_id,
            stage_ref,
        )
}

/// What the steps of a disclosure keep.
pub open spec fn orderly(v: StoreView) -> bool {
    &&& dispatched_once(v)
    &&& consented_once(v)
    &&& dispatched_is_settled(v)
}

/// What was dispatched and spent stays: each dispatch keeps what it is of, what it spent
/// and when, and no receipt is given uses back.
pub open spec fn continues(v: StoreView, w: StoreView) -> bool {
    &&& forall|key: Seq<char>| #[trigger]
        v.dispatches.contains_key(key) ==> {
            &&& w.dispatches.contains_key(key)
            &&& w.dispatches[key].stage_ref == v.dispatches[key].stage_ref
            &&& w.dispatches[key].receipt_id == v.dispatches[key].receipt_id
            &&& w.dispatches[key].dispatch_receipt == v.dispatches[key].dispatch_receipt
            &&& w.dispatches[key].dispatched_at == v.dispatches[key].dispatched_at
        }
    &&& forall|id: Seq<char>| #[trigger]
        v.receipts.contains_key(id) ==> {
            &&& w.receipts.contains_key(id)
            &&& w.receipts[id].stage_ref == v.receipts[id].stage_ref
            &&& w.receipts[id].max_uses == v.receipts[id].max_uses
            &&& w.receipts[id].uses >= v.receipts[id].uses
        }
}

/// Where neither the dispatches nor the receipts change, the order stays.
pub proof fn other_changes_keep_the_order(v: StoreView, w: StoreView)
    requires
        orderly(v),
        w.dispatches == v.dispatches,
        w.receipts == v.receipts,
    ensures
        orderly(w),
        continues(v, w),
{
    assert forall|stage_ref: Seq<char>, a: Seq<char>, b: Seq<char>|
        #[trigger] dispatched_under(w, stage_ref, a) && #[trigger] dispatched_under(w, stage_ref, b) implies a
        == b by {
        assert(dispatched_under(v, stage_ref, a) && dispatched_under(v, stage_ref, b));
    }
    assert forall|stage_ref: Seq<char>, a: Seq<char>, b: Seq<char>|
        #[trigger] staging::is_live_receipt(w, a, stage_ref) && #[trigger] staging::is_live_receipt(
            w,
            b,
            stage_ref,
        ) implies a == b by {
        assert(staging::is_live_receipt(v, a, stage_ref) && staging::is_live_receipt(v, b, stage_ref));
    }
    assert forall|stage_ref: Seq<char>, key: Seq<char>, receipt_id: Seq<char>|
        #[trigger] dispatched_under(w, stage_ref, key) implies !#[trigger] staging::is_live_receipt(
        w,
        receipt_id,
        stage_ref,
    ) by {
        assert(dispatched_under(v, stage_ref, key));
        assert(staging::is_live_receipt(v, receipt_id, stage_ref) == staging::is_live_receipt(
            w,
            receipt_id,
            stage_ref,
        ));
    }
}

/// The first state is in order.
pub proof fn the_first_state_is_in_order(commitment_key: Seq<u8>, checkpoint: ExternalCheckpoint)
    ensures
        orderly(opening::first_state(commitment_key, checkpoint)),
{
}

/// What was kept over two spans is kept over both.
pub proof fn continuing_goes_on(v: StoreView, w: StoreView, x: StoreView)
    requires
        continues(v, w),
        continues(w, x),
    ensures
        continues(v, x),
{
    assert forall|key: Seq<char>| #[trigger] v.dispatches.contains_key(key) implies {
        &&& x.dispatches.contains_key(key)
        &&& x.dispatches[key].stage_ref == v.dispatches[key].stage_ref
        &&& x.dispatches[key].receipt_id == v.dispatches[key].receipt_id
        &&& x.dispatches[key].dispatch_receipt == v.dispatches[key].dispatch_receipt
        &&& x.dispatches[key].dispatched_at == v.dispatches[key].dispatched_at
    } by {
        assert(w.dispatches.contains_key(key));
    }
    assert forall|id: Seq<char>| #[trigger] v.receipts.contains_key(id) implies {
        &&& x.receipts.contains_key(id)
        &&& x.receipts[id].stage_ref == v.receipts[id].stage_ref
        &&& x.receipts[id].max_uses == v.receipts[id].max_uses
        &&& x.receipts[id].uses >= v.receipts[id].uses
    } by {
        assert(w.receipts.contains_key(id));
    }
}

/// Staging keeps the order.
pub proof fn staging_keeps_the_order(
    v: StoreView,
    w: StoreView,
    task_type: Seq<char>,
    performer: Seq<char>,
    payload: Seq<u8>,
    reference: StageReferenceView,
    wall: i64,
    r: Result<StageReply, Problem>,
)
    requires
        orderly(v),
        coord_stage::stages_content(v, w, task_type, performer, payload, reference, wall, r),
    ensures
        orderly(w),
        continues(v, w),
{
    other_changes_keep_the_order(v, w);
}

/// Consent keeps the order: it mints a receipt only for a staging that has none that is
/// live, and that was not dispatched.
pub proof fn consent_keeps_the_order(
    v: StoreView,
    w: StoreView,
    stage_ref: Seq<char>,
    receipt_id: Seq<char>,
    wall: i64,
    r: Result<ConsentReply, Problem>,
)
    requires
        orderly(v),
        coord_stage::consents(v, w, stage_ref, receipt_id, wall, r),
    ensures
        orderly(w),
        continues(v, w),
{
    if r is Err {
        other_changes_keep_the_order(v, w);
    } else {
        assert forall|s: Seq<char>, id: Seq<char>| #[trigger]
            staging::is_live_receipt(w, id, s) implies staging::is_live_receipt(v, id, s) || (id
            == receipt_id && s == stage_ref) by {}
        assert forall|s: Seq<char>, a: Seq<char>, b: Seq<char>|
            #[trigger] dispatched_under(w, s, a) && #[trigger] dispatched_under(w, s, b) implies a == b by {
            assert(dispatched_under(v, s, a) && dispatched_under(v, s, b));
        }
        assert forall|s: Seq<char>, a: Seq<char>, b: Seq<char>|
            #[trigger] staging::is_live_receipt(w, a, s) && #[trigger] staging::is_live_receipt(w, b, s) implies a
            == b by {
            assert(!staging::has_live_receipt(v, stage_ref));
        }
        assert forall|s: Seq<char>, key: Seq<char>, id: Seq<char>|
            #[trigger] dispatched_under(w, s, key) implies !#[trigger] staging::is_live_receipt(w, id, s) by {
            assert(dispatched_under(v, s, key));
            if s == stage_ref {
                assert(staging::answers_to(v, key, stage_ref));
            }
        }
    }
}

/// Dispatching keeps the order: it spends the one live receipt of a staging.
pub proof fn dispatching_keeps_the_order(
    v: StoreView,
    w: StoreView,
    local_root: Seq<char>,
    stage_ref: Seq<char>,
    consent_receipt: Seq<char>,
    execution_key: Seq<char>,
    dispatch_receipt: Seq<char>,
    wall: i64,
    valid: bool,
    r: Result<DispatchStep, Problem>,
)
    requires
        v.consistent(),
        orderly(v),
        coord_dispatch::begins(
            v,
            w,
            local_root,
            stage_ref,
            consent_receipt,
            execution_key,
            dispatch_receipt,
            wall,
            valid,
            r,
        ),
    ensures
        orderly(w),
        continues(v, w),
{
    if w.events == v.events {
        other_changes_keep_the_order(v, w);
    } else {
        assert(staging::is_live_receipt(v, consent_receipt, stage_ref));
        assert forall|s: Seq<char>, key: Seq<char>| #[trigger]
            dispatched_under(w, s, key) implies dispatched_under(v, s, key) || (key == execution_key && s
            == stage_ref) by {}
        assert forall|s: Seq<char>, id: Seq<char>| #[trigger] staging::is_live_receipt(w, id, s) implies
            staging::is_live_receipt(v, id, s) && id != consent_receipt by {}
        assert forall|s: Seq<char>, a: Seq<char>, b: Seq<char>|
            #[trigger] dispatched_under(w, s, a) && #[trigger] dispatched_under(w, s, b) implies a == b by {
            if s == stage_ref {
                if dispatched_under(v, s, a) {
                    assert(!staging::is_live_receipt(v, consent_receipt, s));
                }
                if dispatched_under(v, s, b) {
                    assert(!staging::is_live_receipt(v, consent_receipt, s));
                }
            }
        }
        assert forall|s: Seq<char>, a: Seq<char>, b: Seq<char>|
            #[trigger] staging::is_live_receipt(w, a, s) && #[trigger] staging::is_live_receipt(w, b, s) implies a
            == b by {
            assert(staging::is_live_receipt(v, a, s) && staging::is_live_receipt(v, b, s));
        }
        assert forall|s: Seq<char>, key: Seq<char>, id: Seq<char>|
            #[trigger] dispatched_under(w, s, key) implies !#[trigger] staging::is_live_receipt(w, id, s) by {
            if staging::is_live_receipt(w, id, s) {
                assert(staging::is_live_receipt(v, id, s));
                if s == stage_ref {
                    assert(staging::is_live_receipt(v, consent_receipt, s));
                } else {
                    assert(dispatched_under(v, s, key));
                }
            }
        }
    }
}

/// The end of a carriage keeps the order, and the dispatch is told of as it was begun.
pub proof fn carriage_keeps_the_order(
    v: StoreView,
    w: StoreView,
    order: CarryOrderView,
    carriage: CarriageView,
    wall: i64,
    r: Result<DispatchReply, Problem>,
)
    requires
        orderly(v),
        coord_dispatch::finishes(v, w, order, carriage, wall, r),
    ensures
        orderly(w),
        continues(v, w),
        match r {
            Ok(reply) => {
                let d = v.dispatches[order.record.execution_key];
                &&& v.dispatches.contains_key(order.record.execution_key)
                &&& reply@.dispatch_receipt == d.dispatch_receipt
                &&& reply@.dispatched_at == d.dispatched_at
                &&& reply@.replayed == order.replayed
            },
            Err(_) => true,
        },
{
    if w.events == v.events {
        other_changes_keep_the_order(v, w);
    } else {
        assert(forall|s: Seq<char>, key: Seq<char>| #[trigger]
            dispatched_under(w, s, key) == dispatched_under(v, s, key));
        assert(forall|s: Seq<char>, id: Seq<char>| #[trigger]
            staging::is_live_receipt(w, id, s) == staging::is_live_receipt(v, id, s));
    }
}

/// A staging has one dispatch: whatever answers to it is that one.
pub proof fn a_staging_is_dispatched_once(
    v: StoreView,
    stage_ref: Seq<char>,
    a: Seq<char>,
    b: Seq<char>,
)
    requires
        orderly(v),
        dispatched_under(v, stage_ref, a),
        dispatched_under(v, stage_ref, b),
    ensures
        a == b,
{
}

/// The status of a staging is that of its one dispatch, unless the reference is also a
/// dispatch receipt.
pub proof fn the_status_of_a_staging_is_its_dispatch(
    v: StoreView,
    stage_ref: Seq<char>,
    key: Seq<char>,
    shown: Seq<char>,
)
    requires
        orderly(v),
        dispatched_under(v, stage_ref, key),
        forall|k: Seq<char>| #[trigger]
            v.dispatches.contains_key(k) ==> v.dispatches[k].dispatch_receipt != stage_ref,
        staging::answers_to(v, shown, stage_ref),
    ensures
        shown == key,
        coord_dispatch::status_of(v, stage_ref, shown) == coord_dispatch::status_of(v, stage_ref, key),
{
    assert(dispatched_under(v, stage_ref, shown));
}

proof fn lemma_none_told(events: Seq<CoordEventView>, receipt_id: Seq<char>)
    requires
        forall|i: int| 0 <= i < events.len() ==> !tells_of(#[trigger] events[i], receipt_id),
    ensures
        spendings(events, receipt_id).len() == 0,
    decreases events.len(),
{
    reveal(Seq::filter);
    if events.len() > 0 {
        let rest = events.drop_last();
        assert forall|i: int| 0 <= i < rest.len() implies !tells_of(#[trigger] rest[i], receipt_id) by {
            assert(rest[i] == events[i]);
        }
        lemma_none_told(rest, receipt_id);
    }
}

proof fn lemma_one_told(events: Seq<CoordEventView>, receipt_id: Seq<char>, at: int)
    requires
        store::receipts_are_told_once(events),
        0 <= at < events.len(),
        tells_of(events[at], receipt_id),
    ensures
        spendings(events, receipt_id).len() == 1,
    decreases events.len(),
{
    reveal(Seq::filter);
    let rest = events.drop_last();
    if at == rest.len() {
        assert forall|i: int| 0 <= i < rest.len() implies !tells_of(#[trigger] rest[i], receipt_id) by {
            assert(rest[i] == events[i]);
        }
        lemma_none_told(rest, receipt_id);
    } else {
        assert(rest[at] == events[at]);
        assert forall|i: int, j: int|
            0 <= i < j < rest.len() && (#[trigger] rest[i]).kind is Dispatched && (
            #[trigger] rest[j]).kind is Dispatched implies rest[i].consent_receipt
            != rest[j].consent_receipt by {
            assert(rest[i] == events[i] && rest[j] == events[j]);
        }
        assert(!tells_of(events.last(), receipt_id)) by {
            assert(events.last() == events[events.len() - 1]);
        }
        lemma_one_told(rest, receipt_id, at);
    }
}

/// In every state that the endpoint can come to, the feed holds exactly one event that
/// tells of a dispatch for each consent receipt that was spent, and none for any other.
pub proof fn the_feed_tells_of_each_spending_once(v: StoreView)
    requires
        v.consistent(),
    ensures
        told_once(v),
{
    assert forall|receipt_id: Seq<char>| (#[trigger] spendings(v.events, receipt_id)).len() == (if was_spent(
        v,
        receipt_id,
    ) {
        1nat
    } else {
        0nat
    }) by {
        if was_spent(v, receipt_id) {
            let key = choose|key: Seq<char>| #[trigger] spent_under(v, receipt_id, key);
            assert(v.dispatches.contains_key(key));
            let i = choose|i: int|
                0 <= i < v.events.len() && store::tells_of_dispatch(
                    #[trigger] v.events[i],
                    key,
                    v.dispatches[key],
                );
            lemma_one_told(v.events, receipt_id, i);
        } else {
            assert forall|i: int| 0 <= i < v.events.len() implies !tells_of(
                #[trigger] v.events[i],
                receipt_id,
            ) by {
                if tells_of(v.events[i], receipt_id) {
                    assert(store::tells_truly(v.events[i], v.dispatches));
                    assert(spent_under(v, receipt_id, v.events[i].execution_key->Some_0));
                }
            }
            lemma_none_told(v.events, receipt_id);
        }
    }
}

/// Consent is one-shot. Once a dispatch under a receipt has come about, the same
/// execution key gives the same dispatch again, marked as a repetition and spending
/// nothing; another key is told that the consent is spent; and the feed tells of one
/// dispatch under the receipt, however often it is tried.
pub proof fn one_receipt_is_one_dispatch(
    v: StoreView,
    w: StoreView,
    local_root: Seq<char>,
    stage_ref: Seq<char>,
    receipt_id: Seq<char>,
    key: Seq<char>,
    dispatch_receipt: Seq<char>,
    wall: i64,
    valid: bool,
    first: Result<DispatchStep, Problem>,
    x: StoreView,
    y: StoreView,
    later_key: Seq<char>,
    later_receipt: Seq<char>,
    later: i64,
    later_valid: bool,
    second: Result<DispatchStep, Problem>,
)
    requires
        v.consistent(),
        coord_dispatch::begins(
            v,
            w,
            local_root,
            stage_ref,
            receipt_id,
            key,
            dispatch_receipt,
            wall,
            valid,
            first,
        ),
        first is Ok,
        w.consistent(),
        continues(w, x),
        x.consistent(),
        coord_dispatch::begins(
            x,
            y,
            local_root,
            stage_ref,
            receipt_id,
            later_key,
            later_receipt,
            later,
            later_valid,
            second,
        ),
        coord_dispatch::refused_before_spending(
            x,
            local_root,
            stage_ref,
            receipt_id,
            later_key,
            later_valid,
        ) is None,
        clock::time_now(x, later) is Ok,
        later_key == key || !x.dispatches.contains_key(later_key),
    ensures
        y == clock::timed(x, later),
        spendings(w.events, receipt_id).len() == 1,
        spendings(y.events, receipt_id).len() == 1,
        later_key == key ==> match (first->Ok_0, second) {
            (a, Ok(b)) => begun_receipt(a) == begun_receipt(b) && begun_at(a) == begun_at(b) && replays(b),
            _ => false,
        },
        later_key != key ==> match second {
            Err(p) => p@ == control::problem_of(
                409,
                "consent-spent"@,
                "that consent receipt has already been dispatched; consent is one-shot"@,
            ),
            Ok(_) => false,
        },
{
    assert(spent_under(w, receipt_id, key));
    assert(w.dispatches.contains_key(key));
    assert(x.dispatches.contains_key(key));
    assert(spent_under(x, receipt_id, key));
    assert(w.receipts.contains_key(receipt_id)) by {
        if !v.receipts.contains_key(receipt_id) {
            assert(v.dispatches.contains_key(key));
            assert(v.dispatches[key].receipt_id == receipt_id);
        }
    }
    assert(w.receipts[receipt_id].uses >= w.receipts[receipt_id].max_uses) by {
        if v.dispatches.contains_key(key) {
            assert(v.dispatches[key].receipt_id == receipt_id);
        }
    }
    assert(x.receipts.contains_key(receipt_id));
    the_feed_tells_of_each_spending_once(w);
    the_feed_tells_of_each_spending_once(x);
    assert(was_spent(w, receipt_id) && was_spent(x, receipt_id));
    assert(spendings(w.events, receipt_id).len() == 1 && spendings(x.events, receipt_id).len() == 1);
}

/// The dispatch receipt of a step.
pub open spec fn begun_receipt(step: DispatchStep) -> Seq<char> {
    match step {
        DispatchStep::Done(reply) => reply@.dispatch_receipt,
        DispatchStep::Carry(order) => order@.record.dispatch_receipt,
    }
}

/// When the dispatch of a step was committed.
pub open spec fn begun_at(step: DispatchStep) -> i64 {
    match step {
        DispatchStep::Done(reply) => reply@.dispatched_at,
        DispatchStep::Carry(order) => order@.record.dispatched_at,
    }
}

/// The step is marked as a repetition.
pub open spec fn replays(step: DispatchStep) -> bool {
    match step {
        DispatchStep::Done(reply) => reply@.replayed,
        DispatchStep::Carry(order) => order@.replayed,
    }
}

} // verus!
