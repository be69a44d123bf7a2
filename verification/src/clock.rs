//! The time that a decision is made at. A clock that stepped back too far is not
//! believed, and the decision is refused.
use crate::control::{Problem, ProblemView};
use crate::control;
use crate::store::{CLOCK_TOLERANCE_SECS, Store, StoreView};
use crate::store;
use vstd::prelude::*;

verus! {

/// The state after the wall clock was looked at.
pub open spec fn timed(v: StoreView, wall: i64) -> StoreView {
    StoreView { trusted_time: store::floor_after(v.trusted_time, wall, CLOCK_TOLERANCE_SECS), ..v }
}

/// The clock is not believed.
pub open spec fn time_uncertain() -> ProblemView {
    control::problem_of(
        503,
        "time-uncertain"@,
        "the trusted clock moved backward; refusing until time is re-established"@,
    )
}

/// The time of a decision.
pub open spec fn time_now(v: StoreView, wall: i64) -> Result<i64, ProblemView> {
    match store::now_or_refusal(v.trusted_time, wall) {
        Ok(now) => Ok(now),
        Err(_) => Err(time_uncertain()),
    }
}

/// The time of a decision, given the wall clock.
pub fn trusted_now(store: &mut Store, wall: i64) -> (r: Result<i64, Problem>)
    requires
        old(store).wf(),
    ensures
        final(store).wf(),
        final(store)@ == timed(old(store)@, wall),
        match r {
            Ok(now) => time_now(old(store)@, wall) == Ok::<i64, ProblemView>(now),
            Err(p) => time_now(old(store)@, wall) == Err::<i64, ProblemView>(p@),
        },
{
    match store.trusted_now(wall) {
        Ok(now) => Ok(now),
        Err(_) => Err(
            Problem::new(
                503,
                "time-uncertain",
                "the trusted clock moved backward; refusing until time is re-established",
            ),
        ),
    }
}

/// A refused clock changes nothing.
pub proof fn a_refused_clock_changes_nothing(v: StoreView, wall: i64)
    requires
        time_now(v, wall) is Err,
    ensures
        timed(v, wall) == v,
{
}

/// The time of a decision is never before one that was trusted before.
pub proof fn decisions_do_not_go_back(v: StoreView, wall: i64)
    requires
        time_now(v, wall) is Ok,
    ensures
        time_now(v, wall)->Ok_0 >= v.trusted_time,
        timed(v, wall).trusted_time >= v.trusted_time,
{
}

} // verus!
