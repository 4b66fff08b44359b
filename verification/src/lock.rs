//! The slot of one event type, and the lock in it that serializes access to
//! the pending queue.

use crate::error::BridgeError;
use crate::queue::PendingQueue;
use std::sync::{Mutex, MutexGuard, PoisonError};
use vstd::prelude::*;

verus! {

/// A mutual-exclusion lock around a value.
#[verifier::external_type_specification]
#[verifier::external_body]
#[verifier::reject_recursive_types(T)]
pub struct ExMutex<T: ?Sized>(std::sync::Mutex<T>);

/// Exclusive access to the value in a lock, given up when the guard is dropped.
#[verifier::external_type_specification]
#[verifier::external_body]
#[verifier::reject_recursive_types(T)]
pub struct ExMutexGuard<'a, T: ?Sized + 'a>(std::sync::MutexGuard<'a, T>);

/// What a lock hands out once a thread has panicked while holding it.
#[verifier::external_type_specification]
#[verifier::external_body]
#[verifier::reject_recursive_types(T)]
pub struct ExPoisonError<T>(std::sync::PoisonError<T>);

/// What the registry keeps for one event type: the pending queue of that type
/// behind its lock. Nothing outside this library can reach the lock, so no
/// caller can hold it while it calls into the library.
#[verifier::reject_recursive_types(T)]
pub struct Slot<T> {
    lock: Mutex<PendingQueue<T>>,
}

/// Calls `Mutex::new`: an unlocked lock around `value`.
#[verifier::external_body]
fn new_lock<V>(value: V) -> (lock: Mutex<V>) {
    Mutex::new(value)
}

/// The slot of the event type `T`, as it is created on first use: a lock
/// around an empty pending queue.
pub(crate) fn empty_slot<T>() -> (slot: Slot<T>) {
    Slot { lock: new_lock(PendingQueue::new()) }
}

/// Calls `Mutex::lock` on the lock of `slot`: waits until the lock is free and
/// takes it. The outcome is an error if a thread panicked while it held the
/// lock; which of the two comes back depends on what other threads did, so
/// nothing is claimed of it. The call returns because the calling thread
/// cannot hold this lock already: only `queue_event` and `poll_events` take
/// it, each gives it up before it returns, and neither runs a caller's code
/// in between.
#[verifier::external_body]
pub(crate) fn acquire<'a, T>(slot: &'a Slot<T>) -> (outcome: Result<
    MutexGuard<'a, PendingQueue<T>>,
    PoisonError<MutexGuard<'a, PendingQueue<T>>>,
>) {
    slot.lock.lock()
}

/// Calls `MutexGuard::deref_mut`: the value that `guard` gives exclusive access
/// to. Other threads may have changed it between two acquisitions, so nothing
/// is claimed of it.
#[verifier::external_body]
pub(crate) fn guarded<'a, 'g, V>(guard: &'a mut MutexGuard<'g, V>) -> (value: &'a mut V) {
    &mut **guard
}

/// Tells what an attempt to take a lock gave: the guard where the lock was
/// taken, and `Poisoned` where a holder of the lock had panicked.
pub fn unpoisoned<G>(attempt: Result<G, PoisonError<G>>) -> (checked: Result<
    G,
    BridgeError,
>)
    ensures
        match attempt {
            Ok(guard) => checked == Ok::<G, BridgeError>(guard),
            Err(_) => checked == Err::<G, BridgeError>(BridgeError::Poisoned),
        },
{
    match attempt {
        Ok(guard) => Ok(guard),
        Err(_) => Err(BridgeError::Poisoned),
    }
}

} // verus!
