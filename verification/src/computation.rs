//! The suspendable-computation contract: a value representing work that may
//! not be complete, advanced step by step until it yields a result.

use vstd::prelude::*;
use crate::notify::NotificationHandle;

verus! {

/// The two observable outcomes of advancing a suspendable computation.
pub enum Step<T> {
    /// The computation finished and yields its final result.
    Complete(T),
    /// Not yet; some future notification will fire the supplied handle
    /// once progress becomes possible.
    Suspended,
}

/// A unit of work advanced step by step, reporting completion or "not yet".
///
/// `post` is the relation the final result is promised to satisfy; it is
/// fixed for the computation's whole lifetime.  `done` records whether the
/// computation has already yielded `Complete`: advancing it again after that
/// is a caller error, excluded by `advance`'s precondition rather than
/// tolerated at run time.
pub trait Computation: Sized {
    type Output;

    /// Well-formedness of the computation's internal state.
    spec fn inv(&self) -> bool;

    /// Whether the computation has already yielded `Complete`.
    spec fn done(&self) -> bool;

    /// What the computation promises of its final result.
    spec fn post(&self, v: Self::Output) -> bool;

    /// Whether completion is guaranteed on the very next advance.  A
    /// computation whose result is already at hand answers `true` and must
    /// then yield `Complete` at once; one that may have to wait on outside
    /// progress answers `false`.
    spec fn ready(&self) -> bool;

    /// Advances the computation by one step.  A `Suspended` return obliges
    /// the computation to eventually fire `handle` (or a clone of it) once
    /// progress becomes possible; a `Complete` return is terminal, and the
    /// computation must not be advanced again.  A computation that is
    /// `ready` completes here and now.
    fn advance(&mut self, handle: &NotificationHandle) -> (r: Step<Self::Output>)
        requires
            old(self).inv(),
            !old(self).done(),
        ensures
            final(self).inv(),
            forall|v: Self::Output| final(self).post(v) == old(self).post(v),
            old(self).ready() ==> r is Complete,
            match r {
                Step::Complete(v) => old(self).post(v) && final(self).done(),
                Step::Suspended => !final(self).done(),
            },
    ;
}

/// A computation that is already complete: its single `advance` returns the
/// stored value at once, so a driver never parks on it.
pub struct Ready<T> {
    value: Option<T>,
    initial: Ghost<T>,
}

impl<T> Ready<T> {
    /// Wraps `value` as a computation that completes on its first advance.
    pub fn new(value: T) -> (r: Ready<T>)
        ensures
            r.inv(),
            !r.done(),
            r.ready(),
            forall|v: T| r.post(v) == (v == value),
    {
        let ghost initial = value;
        Ready { value: Some(value), initial: Ghost(initial) }
    }
}

impl<T> Computation for Ready<T> {
    type Output = T;

    closed spec fn inv(&self) -> bool {
        self.value matches Some(v) ==> v == self.initial@
    }

    closed spec fn done(&self) -> bool {
        self.value is None
    }

    closed spec fn post(&self, v: T) -> bool {
        v == self.initial@
    }

    /// The value is at hand from construction on.
    open spec fn ready(&self) -> bool {
        true
    }

    fn advance(&mut self, handle: &NotificationHandle) -> (r: Step<T>) {
        let taken = self.value.take();
        Step::Complete(taken.unwrap())
    }
}

} // verus!
