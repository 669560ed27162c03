//! Wake notification: a clonable handle that makes a parked driver thread
//! runnable again.  Firing is idempotent: the underlying token is made
//! available at most once until the next park consumes it, so redundant
//! fires are safe at any time.

use vstd::prelude::*;
use crossbeam::sync::Parker;
use crossbeam::sync::Unparker;

verus! {

#[verifier::external_type_specification]
#[verifier::external_body]
pub struct ExParker(Parker);

#[verifier::external_type_specification]
#[verifier::external_body]
pub struct ExUnparker(Unparker);

/// Relies on crossbeam's `Parker::new`: a fresh parking primitive whose
/// token starts out absent.
#[verifier::external_body]
pub(crate) fn new_parker() -> Parker {
    Parker::new()
}

/// Relies on crossbeam's `Parker::park`: blocks the calling thread until
/// the parker's token is available, then consumes it.  Returns at once if
/// an unpark already made the token available ("pre-fired" semantics).
#[verifier::external_body]
pub(crate) fn park(p: &Parker) {
    p.park()
}

/// Relies on crossbeam's `Parker::unparker`: the unpark half bound to the
/// same token as this parker.
#[verifier::external_body]
fn unparker_of(p: &Parker) -> &Unparker {
    p.unparker()
}

/// Relies on crossbeam's `Unparker::clone`: another handle to the very same
/// token, indistinguishable from the one cloned, so the copy is modelled as
/// equal to it.
#[verifier::external_body]
fn clone_unparker(u: &Unparker) -> (r: Unparker)
    ensures
        r == *u,
{
    u.clone()
}

/// Relies on crossbeam's `Unparker::unpark`: makes the token available if it
/// was not already; never blocks, and is safe to call at any time.
#[verifier::external_body]
fn unpark(u: &Unparker) {
    u.unpark()
}

/// A clonable, idempotent-fire signal used to wake a parked driver thread.
///
/// The executor derives one handle per invocation; a suspended computation
/// may clone or store it and fire it later, possibly from another thread.
pub struct NotificationHandle {
    unparker: Unparker,
}

impl NotificationHandle {
    /// Derives the notification handle bound to `parker`: firing the result
    /// unparks the thread that parks on `parker`.
    pub fn from_parker(parker: &Parker) -> NotificationHandle {
        NotificationHandle { unparker: clone_unparker(unparker_of(parker)) }
    }

    /// Signals "try advancing again".  Safe to call at any time, including
    /// after the woken party has already finished; redundant fires are no-ops.
    pub fn fire(&self) {
        unpark(&self.unparker)
    }
}

impl Clone for NotificationHandle {
    /// The clone signals the same token as the handle it was cloned from.
    fn clone(&self) -> (r: NotificationHandle)
        ensures
            r == *self,
    {
        NotificationHandle { unparker: clone_unparker(&self.unparker) }
    }
}

} // verus!
