//! What a pending queue delivers over any history of enqueues and drains.

use crate::event::ExternEvent;
use crate::queue::forwarded;
use vstd::prelude::*;

verus! {

/// One step in the life of a pending queue.
pub enum Step<T> {
    /// A producer appends a value.
    Enqueue(T),
    /// The consumer drains the queue and forwards what was pending.
    Drain,
}

/// Where the pending queue of one event type stands.
#[derive(PartialEq, Eq, Structural)]
pub enum Phase {
    /// Nobody has touched the type yet: its queue does not exist.
    Uninitialized,
    /// The queue exists and is empty.
    Idle,
    /// The queue holds values that the next drain will forward.
    Pending,
}

/// What is pending after `steps` have run, in their order, on a queue that
/// started empty.
pub open spec fn pending_after<T>(steps: Seq<Step<T>>) -> Seq<T>
    decreases steps.len(),
{
    if steps.len() == 0 {
        Seq::empty()
    } else {
        let before = pending_after(steps.drop_last());
        match steps.last() {
            Step::Enqueue(value) => before.push(value),
            Step::Drain => Seq::empty(),
        }
    }
}

/// Every event that the drains among `steps` have forwarded, in the order in
/// which it was forwarded.
pub open spec fn delivered_by<T: Send + Sync + Default>(steps: Seq<Step<T>>) -> Seq<ExternEvent<T>>
    decreases steps.len(),
{
    if steps.len() == 0 {
        Seq::empty()
    } else {
        let earlier = delivered_by(steps.drop_last());
        match steps.last() {
            Step::Enqueue(_) => earlier,
            Step::Drain => earlier + forwarded(pending_after(steps.drop_last())),
        }
    }
}

/// Every value that the enqueues among `steps` have appended, in the order in
/// which it was appended.
pub open spec fn enqueued_by<T>(steps: Seq<Step<T>>) -> Seq<T>
    decreases steps.len(),
{
    if steps.len() == 0 {
        Seq::empty()
    } else {
        let earlier = enqueued_by(steps.drop_last());
        match steps.last() {
            Step::Enqueue(value) => earlier.push(value),
            Step::Drain => earlier,
        }
    }
}

/// The steps that enqueue `values` one after another, first to last.
pub open spec fn enqueues<T>(values: Seq<T>) -> Seq<Step<T>> {
    values.map_values(|value: T| Step::Enqueue(value))
}

/// The phase that a queue is in after `steps`.
pub open spec fn phase_after<T>(steps: Seq<Step<T>>) -> Phase {
    if steps.len() == 0 {
        Phase::Uninitialized
    } else if pending_after(steps).len() == 0 {
        Phase::Idle
    } else {
        Phase::Pending
    }
}

/// The first step takes a queue out of `Uninitialized` for good; from then on
/// every enqueue leaves it `Pending` and every drain leaves it `Idle`.
pub proof fn lemma_phase_transitions<T>(steps: Seq<Step<T>>, value: T)
    ensures
        steps.len() == 0 <==> phase_after(steps) == Phase::Uninitialized,
        phase_after(steps.push(Step::Enqueue(value))) == Phase::Pending,
        phase_after(steps.push(Step::Drain)) == Phase::Idle,
{
}

/// Nothing is lost, forwarded twice or reordered: after any history, the
/// events forwarded so far followed by what a drain would forward now are
/// exactly the values enqueued so far, each once, in the order of their
/// enqueues.
pub proof fn lemma_delivery_is_exact<T: Send + Sync + Default>(steps: Seq<Step<T>>)
    ensures
        delivered_by(steps) + forwarded(pending_after(steps)) == forwarded(enqueued_by(steps)),
    decreases steps.len(),
{
    if steps.len() > 0 {
        let earlier = steps.drop_last();
        lemma_delivery_is_exact(earlier);
        if let Step::Enqueue(value) = steps.last() {
            let enqueued = enqueued_by(earlier);
            assert(forwarded(enqueued.push(value)) =~= forwarded(enqueued).push(
                ExternEvent(value),
            ));
        }
    }
}

/// With no drain among them, enqueues leave their values pending in the order
/// in which they ran.
pub proof fn lemma_enqueues_stay_pending<T>(values: Seq<T>)
    ensures
        pending_after(enqueues(values)) == values,
    decreases values.len(),
{
    if values.len() > 0 {
        lemma_enqueues_stay_pending(values.drop_last());
        assert(enqueues(values).drop_last() =~= enqueues(values.drop_last()));
    }
}

/// First in, first out: when `values` are enqueued one after another, by one
/// producer and with no drain before them, the next drain forwards exactly
/// those values, each once, in the order in which they were enqueued.
pub proof fn lemma_fifo_preservation<T: Send + Sync + Default>(values: Seq<T>)
    ensures
        forwarded(pending_after(enqueues(values))).len() == values.len(),
        forall|i: int|
            0 <= i < values.len() ==> #[trigger] forwarded(pending_after(enqueues(values)))[i]
                == ExternEvent(values[i]),
        pending_after(enqueues(values).push(Step::Drain)) == Seq::<T>::empty(),
{
    lemma_enqueues_stay_pending(values);
}

/// Each value is delivered once: of two drains with no enqueue between them,
/// the second forwards no event, whatever happened before the first.
pub proof fn lemma_second_drain_forwards_nothing<T: Send + Sync + Default>(steps: Seq<Step<T>>)
    ensures
        forwarded(pending_after(steps.push(Step::Drain))) == Seq::<ExternEvent<T>>::empty(),
        delivered_by(steps.push(Step::Drain).push(Step::Drain)) == delivered_by(
            steps.push(Step::Drain),
        ),
{
    let once = steps.push(Step::<T>::Drain);
    assert(once.push(Step::<T>::Drain).drop_last() =~= once);
}

} // verus!
