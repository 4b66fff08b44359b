//! The two ends of the bridge: producers queue events from any thread, and
//! the consumer polls them once per tick.

use crate::error::BridgeError;
use crate::event::ExternEvent;
use crate::lock::{acquire, guarded, unpoisoned};
use crate::queue::drain_and_forward;
use crate::registry::{get_global, shared};
use generic_global_variables::GenericGlobal;
use once_cell::sync::OnceCell;
use vstd::prelude::*;

verus! {

/// Appends `event` to the pending queue of its type in the registry that
/// `globals` holds, creating the queue if this is the first use of the type.
/// May be called from any thread, also before any consumer exists.
///
/// The call takes the lock of that queue and holds it for the one append. It
/// fails with `Poisoned`, and queues nothing, if a holder of the lock has
/// panicked. What else is pending when the append happens depends on the
/// other producers, so the outcome is not tied to the arguments: the append
/// itself is `PendingQueue::enqueue`.
pub fn queue_event<T: 'static + Send + Sync>(globals: &OnceCell<GenericGlobal>, event: T) -> (outcome:
    Result<(), BridgeError>) {
    let entry = get_global::<T>(globals);
    let outcome = match unpoisoned(acquire(shared(&entry))) {
        Ok(mut guard) => {
            guarded(&mut guard).enqueue(event);
            Ok(())
        },
        Err(error) => Err(error),
    };
    outcome
}

/// Takes every pending event of type `T` out of the registry that `globals`
/// holds and returns them, oldest first, ready to be sent to the host's event
/// channel. Meant to be called once per tick, by one consumer per type.
///
/// The call takes the lock of that queue and holds it for the whole drain, so
/// that no append falls between two removals. It fails with `Poisoned` if a
/// holder of the lock has panicked. What is pending when the drain happens
/// depends on the producers, so the outcome is not tied to the arguments: the
/// drain itself is [`drain_and_forward`].
pub fn poll_events<T: 'static + Send + Sync + Default>(
    globals: &OnceCell<GenericGlobal>,
) -> (outcome: Result<Vec<ExternEvent<T>>, BridgeError>) {
    let entry = get_global::<T>(globals);
    let outcome = match unpoisoned(acquire(shared(&entry))) {
        Ok(mut guard) => Ok(drain_and_forward(guarded(&mut guard))),
        Err(error) => Err(error),
    };
    outcome
}

} // verus!
