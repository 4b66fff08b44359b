//! The one way in which the bridge can fail.

use vstd::prelude::*;

verus! {

/// Why the bridge could not reach the pending queue of an event type.
#[derive(Debug, Clone, Copy, PartialEq, Eq, Structural)]
pub enum BridgeError {
    /// A thread panicked while it held the lock of this type's pending queue.
    /// The queue stays unusable for the rest of the process; the queues of
    /// other types are not affected.
    Poisoned,
}

} // verus!
