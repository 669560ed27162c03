//! The executor: drives one suspendable computation to completion on the
//! calling thread, parking between attempts until notified.

use vstd::prelude::*;
use crate::bridge::BlockingBridge;
use crate::bridge::spawn_blocking;
use crate::computation::Computation;
use crate::computation::Step;
use crate::notify::NotificationHandle;
use crate::notify::new_parker;
use crate::notify::park;

verus! {

/// How many times one `run_to_completion` invocation is willing to park.
/// The driver loop needs a termination measure; a unit of the budget is
/// spent only after an observed suspension, and the thread then sleeps
/// until woken, so the budget is never exhausted in practice.
pub const PARK_BUDGET: u64 = u64::MAX;

/// Drives `computation` until it completes and returns its result.
///
/// One thread-parking primitive is constructed per invocation and a
/// notification handle bound to it is supplied on every advance.  The
/// computation is advanced first, so one that completes synchronously
/// returns without the driver thread ever parking; a `Suspended` advance
/// parks the calling thread until the handle fires.  Parking is a no-op if
/// a fire already happened since the last park, which closes the race
/// between "advance returns `Suspended`" and "the notification fires".
///
/// There is no timeout and no error path of the executor's own: a
/// computation that never fires its handle parks the thread forever.  The
/// `Err` outcome exists only because the driver loop carries [`PARK_BUDGET`]
/// as its termination measure; it hands the still-unfinished computation
/// back unchanged, fit to be driven again.  A computation that completes
/// synchronously on its first advance — one that is `ready` — is promised
/// its value: the driver returns it from that first advance, before any
/// park.
pub fn run_to_completion<C: Computation>(computation: C) -> (r: Result<C::Output, C>)
    requires
        computation.inv(),
        !computation.done(),
    ensures
        r matches Ok(v) ==> computation.post(v),
        computation.ready() ==> r is Ok,
        r matches Err(c) ==> {
            &&& c.inv()
            &&& !c.done()
            &&& forall|v: C::Output| c.post(v) == computation.post(v)
        },
{
    let parker = new_parker();
    let handle = NotificationHandle::from_parker(&parker);
    let mut current = computation;
    let mut budget: u64 = PARK_BUDGET;
    loop
        invariant
            current.inv(),
            !current.done(),
            forall|v: C::Output| current.post(v) == computation.post(v),
            computation.ready() ==> current.ready(),
        decreases budget,
    {
        match current.advance(&handle) {
            Step::Complete(value) => {
                return Ok(value);
            },
            Step::Suspended => {
                if budget == 0 {
                    return Err(current);
                }
                budget = budget - 1;
                park(&parker);
            },
        }
    }
}

/// Offloads `closure` to a background thread and drives the resulting
/// bridge to completion: the blocking round trip.  Every value it hands
/// back satisfies the closure's own postcondition, so a closure that always
/// returns `v` round-trips to exactly `v`, whatever other bridges ran
/// before or after; [`lemma_round_trip_pins`] states that consequence.
pub fn run_spawned<T, F>(closure: F) -> (r: Result<T, BlockingBridge<T>>) where
    T: Send + Sync + 'static,
    F: FnOnce() -> T + Send + 'static,

    requires
        call_requires(closure, ()),
    ensures
        r matches Ok(v) ==> call_ensures(closure, (), v),
        r matches Err(c) ==> {
            &&& c.inv()
            &&& !c.done()
            &&& forall|v: T| c.post(v) == call_ensures(closure, (), v)
        },
{
    run_to_completion(spawn_blocking(closure))
}

/// Law: the blocking round trip returns the closure's own value.  If the
/// closure's postcondition pins its result to `v` — as `|| v` does for any
/// value `v` — then whatever the round trip hands back is exactly `v`.
pub proof fn lemma_round_trip_pins<T, F: FnOnce() -> T>(closure: F, r: T, v: T)
    requires
        forall|x: T| call_ensures(closure, (), x) ==> x == v,
        call_ensures(closure, (), r),
    ensures
        r == v,
{
}

} // verus!
