//! The wrapper that marks a value as forwarded by the bridge.

use vstd::prelude::*;

verus! {

/// One value that was drained from a pending queue and handed on to the
/// host's event channel. The wrapper keeps forwarded values apart from plain
/// `T` events that the host may produce by other means.
pub struct ExternEvent<T: Send + Sync + Default>(pub T);

impl<T: Send + Sync + Default> Default for ExternEvent<T> {
    /// Wraps the default value of `T`.
    fn default() -> (event: Self)
        ensures
            call_ensures(T::default, (), event.0),
    {
        ExternEvent(T::default())
    }
}

} // verus!
