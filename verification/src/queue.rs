//! The pending queue of one event type, and the drain that forwards it.

use crate::event::ExternEvent;
use std::collections::VecDeque;
use vstd::prelude::*;

verus! {

/// The values of one event type that producers have enqueued and the consumer
/// has not forwarded yet, oldest first. The queue has no upper bound: it grows
/// until it is drained.
pub struct PendingQueue<T> {
    items: VecDeque<T>,
}

impl<T> View for PendingQueue<T> {
    type V = Seq<T>;

    /// The pending values in the order in which they were enqueued.
    closed spec fn view(&self) -> Seq<T> {
        self.items@
    }
}

/// What a drain forwards for the pending values `pending`: each value wrapped
/// as an event, in the order in which the values were enqueued.
pub open spec fn forwarded<T: Send + Sync + Default>(pending: Seq<T>) -> Seq<ExternEvent<T>> {
    pending.map_values(|value: T| ExternEvent(value))
}

impl<T> PendingQueue<T> {
    /// An empty queue, as the first use of an event type creates it.
    pub fn new() -> (queue: Self)
        ensures
            queue@ == Seq::<T>::empty(),
    {
        PendingQueue { items: VecDeque::new() }
    }

    /// The number of pending values.
    pub fn len(&self) -> (n: usize)
        ensures
            n == self@.len(),
    {
        self.items.len()
    }

    /// Whether nothing is pending, so that a drain would forward no event.
    pub fn is_empty(&self) -> (empty: bool)
        ensures
            empty <==> self@.len() == 0,
    {
        self.items.len() == 0
    }

    /// Appends `value` behind everything that is already pending.
    pub fn enqueue(&mut self, value: T)
        ensures
            final(self)@ == old(self)@.push(value),
    {
        self.items.push_back(value);
    }

    /// Removes the oldest pending value, if there is one.
    pub fn dequeue(&mut self) -> (front: Option<T>)
        ensures
            old(self)@.len() == 0 ==> front is None && final(self)@ == old(self)@,
            old(self)@.len() > 0 ==> front == Some(old(self)@.first()) && final(self)@ == old(
                self,
            )@.drop_first(),
    {
        self.items.pop_front()
    }
}

/// Empties `queue` and returns every value that was pending as an event,
/// oldest first. On an empty queue it returns no event.
pub fn drain_and_forward<T: Send + Sync + Default>(queue: &mut PendingQueue<T>) -> (events: Vec<
    ExternEvent<T>,
>)
    ensures
        events@ == forwarded(old(queue)@),
        final(queue)@ == Seq::<T>::empty(),
{
    let ghost pending = queue@;
    let mut events: Vec<ExternEvent<T>> = Vec::new();
    loop
        invariant
            events@.len() + queue@.len() == pending.len(),
            events@ == forwarded(pending.take(events@.len() as int)),
            queue@ == pending.skip(events@.len() as int),
        ensures
            events@ == forwarded(pending),
            queue@.len() == 0,
        decreases queue@.len(),
    {
        match queue.dequeue() {
            Some(value) => {
                events.push(ExternEvent(value));
            },
            None => {
                break ;
            },
        }
    }
    events
}

} // verus!
