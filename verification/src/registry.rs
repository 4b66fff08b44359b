//! The registry that keeps one shared slot for the pending queue of each
//! event type that was ever used.
//!
//! The registry itself lives in a cell that its owner creates empty; whoever
//! touches the cell first creates the registry, and whoever asks for a type
//! first creates that type's slot. Slots are never removed.

use crate::lock::{empty_slot, Slot};
use generic_global_variables::{Entry, GenericGlobal};
use once_cell::sync::OnceCell;
use vstd::prelude::*;

verus! {

/// A cell that is written at most once and can then be read from any thread.
#[verifier::external_type_specification]
#[verifier::external_body]
#[verifier::reject_recursive_types(T)]
pub struct ExOnceCell<T>(once_cell::sync::OnceCell<T>);

/// The map from a type's identity to the slot that holds the shared value of
/// that type.
#[verifier::external_type_specification]
#[verifier::external_body]
pub struct ExGenericGlobal(generic_global_variables::GenericGlobal);

/// A handle on one slot of the registry. Handles on the same slot share the
/// value in it.
#[verifier::external_type_specification]
#[verifier::external_body]
#[verifier::reject_recursive_types(T)]
pub struct ExEntry<T: 'static>(generic_global_variables::Entry<T>);

/// Calls `OnceCell::get_or_init` with `GenericGlobal::new` as the initializer:
/// the registry in `cell`, created empty by this call if the cell was empty.
/// The initializer neither panics nor touches the cell, so the call returns.
/// Nothing is claimed of the registry that comes back.
#[verifier::external_body]
fn registry_in(cell: &OnceCell<GenericGlobal>) -> (registry: &GenericGlobal) {
    cell.get_or_init(GenericGlobal::new)
}

/// Calls `GenericGlobal::get_or_init` with `empty_slot` as the initializer: a
/// handle on the slot of the event type `T`, which this call creates if
/// no such slot existed. The registry is locked while the initializer runs;
/// `empty_slot` neither panics nor touches the registry, so the call returns.
/// Whether the slot is new, and what its queue holds, depends on what other
/// callers did before, so nothing is claimed of the handle that comes back.
#[verifier::external_body]
fn slot_in<T: 'static + Send + Sync>(registry: &GenericGlobal) -> (entry: Entry<Slot<T>>) {
    registry.get_or_init(|| empty_slot::<T>())
}

/// Calls `Entry::deref`: the shared value in the slot that `entry` points to.
/// A handle for `T` is only ever made for the slot of type `T`, so the cast in
/// `deref` succeeds.
#[verifier::external_body]
pub(crate) fn shared<T: 'static>(entry: &Entry<T>) -> (value: &T) {
    &**entry
}

/// Returns a handle on the slot that the registry in `cell` keeps for the
/// event type `T`.
///
/// The first call on a cell creates the registry. The first call for a type
/// `T` creates that type's slot, a lock around an empty queue; every later
/// call for `T` hands out the same slot, with whatever its queue holds by
/// then. The initializer of a slot is always the library's own: the registry
/// is locked while an initializer runs, and one that asked the registry for a
/// slot in turn would wait for itself. The handle does not give access to the
/// queue: that takes the slot's lock, which only [`crate::queue_event`] and
/// [`crate::poll_events`] do.
pub fn get_global<T: 'static + Send + Sync>(cell: &OnceCell<GenericGlobal>) -> (entry: Entry<
    Slot<T>,
>) {
    let registry = registry_in(cell);
    slot_in(registry)
}

} // verus!
