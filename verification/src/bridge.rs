//! The blocking-work bridge: wraps a synchronous, potentially slow closure
//! as a suspendable computation by running it on a dedicated background
//! thread and funnelling its result back through a lock-guarded shared slot.

use vstd::prelude::*;
use vstd::*;
use vstd::rwlock::RwLock;
use std::sync::Arc;
use crate::computation::Computation;
use crate::computation::Step;
use crate::notify::NotificationHandle;

verus! {

/// The shared result slot: the lock-guarded record through which the
/// background thread hands its result to the polling side, and through
/// which the polling side leaves a wake handle to be fired.
///
/// Exactly two parties share it: the bridge instance being advanced and the
/// background thread running the closure.  Every read or write of its two
/// fields happens under one exclusive lock, held only for the field access,
/// never across the closure's execution or across the notification call.
pub struct Slot<T> {
    /// The closure's result; absent until the background thread finishes,
    /// removed by the polling side the first time it observes it present.
    pub value: Option<T>,
    /// The wake handle stored by the most recent advance that found no
    /// result; only that caller is owed a wake.
    pub waker: Option<NotificationHandle>,
}

/// What one advance does to the slot: take the result if it is present,
/// otherwise leave the supplied wake handle.  Returns the slot afterwards
/// and the outcome of the advance.
pub open spec fn poll_step<T>(s: Slot<T>, handle: NotificationHandle) -> (Slot<T>, Step<T>) {
    match s.value {
        Some(v) => (Slot { value: None, waker: s.waker }, Step::Complete(v)),
        None => (Slot { value: None, waker: Some(handle) }, Step::Suspended),
    }
}

/// What the background thread does to the slot when the closure finishes:
/// store the result and take whatever wake handle is owed a fire.  Returns
/// the slot afterwards and the handle to fire, if one was stored.
pub open spec fn complete_step<T>(s: Slot<T>, v: T) -> (Slot<T>, Option<NotificationHandle>) {
    (Slot { value: Some(v), waker: None }, s.waker)
}

/// No lost wakeup, polling side first: if an advance finds no result and
/// stores its handle, then the background thread, on finishing, takes that
/// exact handle to fire, and every later advance observes the result.
pub proof fn lemma_no_lost_wakeup<T>(s: Slot<T>, handle: NotificationHandle, v: T)
    requires
        s.value is None,
    ensures
        poll_step(s, handle).1 == Step::<T>::Suspended,
        complete_step(poll_step(s, handle).0, v).1 == Some(handle),
        forall|later: NotificationHandle|
            poll_step(complete_step(poll_step(s, handle).0, v).0, later).1 == Step::Complete(v),
{
}

/// Result visibility, background thread first: once the result is stored,
/// the very next advance observes `Complete` with that exact value, and no
/// wake handle is left behind to fire spuriously.
pub proof fn lemma_result_not_missed<T>(s: Slot<T>, v: T, handle: NotificationHandle)
    requires
        s.value is None,
    ensures
        poll_step(complete_step(s, v).0, handle).1 == Step::Complete(v),
        complete_step(s, v).0.value == Some(v),
{
}

/// Whether `s` may sit in a bridge's slot lock whose results are promised
/// to satisfy `p`: a stored result must satisfy it.
pub open spec fn slot_ok<T>(p: spec_fn(T) -> bool, s: Slot<T>) -> bool {
    match s.value {
        Some(v) => p(v),
        None => true,
    }
}

/// One advance of the slot, to be called with the lock held: exactly
/// [`poll_step`] on the slot's two fields.
fn poll_slot<T>(slot: &mut Slot<T>, handle: &NotificationHandle) -> (r: Step<T>)
    ensures
        (*final(slot), r) == poll_step(*old(slot), *handle),
{
    let taken = slot.value.take();
    match taken {
        Some(v) => Step::Complete(v),
        None => {
            slot.waker = Some(handle.clone());
            Step::Suspended
        },
    }
}

/// The background thread's single store, to be called with the lock held:
/// exactly [`complete_step`] on the slot's two fields.
fn complete_slot<T>(slot: &mut Slot<T>, v: T) -> (fired: Option<NotificationHandle>)
    ensures
        (*final(slot), fired) == complete_step(*old(slot), v),
{
    slot.value = Some(v);
    slot.waker.take()
}

/// A suspendable computation whose result is produced by a closure running
/// on a dedicated background thread; the caller-visible handle returned by
/// [`spawn_blocking`].
#[verifier::reject_recursive_types(T)]
pub struct BlockingBridge<T> {
    slot: Arc<RwLock<Slot<T>, spec_fn(Slot<T>) -> bool>>,
    finished: bool,
    promised: Ghost<spec_fn(T) -> bool>,
}

impl<T> Computation for BlockingBridge<T> {
    type Output = T;

    closed spec fn inv(&self) -> bool {
        forall|s: Slot<T>| (*self.slot).inv(s) == slot_ok(self.promised@, s)
    }

    closed spec fn done(&self) -> bool {
        self.finished
    }

    closed spec fn post(&self, v: T) -> bool {
        (self.promised@)(v)
    }

    /// Whether the background thread has finished is never known to the
    /// polling side ahead of the poll, so completion is never guaranteed.
    open spec fn ready(&self) -> bool {
        false
    }

    /// Acquires the slot's lock and performs one [`poll_step`]: if the
    /// background thread's result is present it is removed and returned as
    /// `Complete`, and the bridge is finished; otherwise the supplied
    /// handle is stored, overwriting any previously stored one, and the
    /// advance reports `Suspended`.  Advancing a finished bridge is a
    /// caller error, excluded by the precondition.
    fn advance(&mut self, handle: &NotificationHandle) -> (r: Step<T>) {
        let (mut slot, write_handle) = self.slot.acquire_write();
        let ghost acquired = slot;
        let step = poll_slot(&mut slot, handle);
        proof {
            assert(forall|s: Slot<T>| (*self.slot).inv(s) == slot_ok(self.promised@, s));
            assert(slot_ok(self.promised@, slot));
            assert(write_handle.rwlock().inv(slot));
        }
        write_handle.release_write(slot);
        match step {
            Step::Complete(v) => {
                proof {
                    assert(slot_ok(self.promised@, acquired));
                    assert(acquired.value == Some(v));
                }
                self.finished = true;
                Step::Complete(v)
            },
            Step::Suspended => Step::Suspended,
        }
    }
}

/// Wraps `closure` as a suspendable computation.
///
/// A fresh shared result slot is allocated with no result and no stored
/// wake handle, and one background thread bound to this call is started.
/// That thread runs the closure exactly once, stores the result in the
/// slot under its lock, and only after releasing the lock fires the wake
/// handle, if an advance had stored one — so any party woken by the
/// notification finds the result already present.
pub fn spawn_blocking<T, F>(closure: F) -> (bridge: BlockingBridge<T>) where
    T: Send + Sync + 'static,
    F: FnOnce() -> T + Send + 'static,

    requires
        call_requires(closure, ()),
    ensures
        bridge.inv(),
        !bridge.done(),
        forall|v: T| bridge.post(v) == call_ensures(closure, (), v),
{
    let ghost promised = |v: T| call_ensures(closure, (), v);
    let slot = Slot { value: None, waker: None };
    let lock = Arc::new(
        RwLock::<Slot<T>, spec_fn(Slot<T>) -> bool>::new(
            slot,
            Ghost(|s: Slot<T>| slot_ok(promised, s)),
        ),
    );
    let worker_lock = lock.clone();
    let _worker = thread::spawn(
        (move || -> (fired: bool)
            {
                let value = closure();
                let to_fire = {
                    let (mut slot, write_handle) = worker_lock.acquire_write();
                    let fired = complete_slot(&mut slot, value);
                    write_handle.release_write(slot);
                    fired
                };
                match to_fire {
                    Some(handle) => {
                        handle.fire();
                        true
                    },
                    None => false,
                }
            }),
    );
    BlockingBridge { slot: lock, finished: false, promised: Ghost(promised) }
}

} // verus!
