//! The queue of locations that the search works through, kept by the
//! `queue` crate.

use queue::Queue;
use vstd::prelude::*;

verus! {

/// `queue::Queue`, a first-in, first-out queue. Nothing of its inside is
/// seen; what it holds is told by `queue_items` and `queue_limit`.
#[verifier::external_type_specification]
#[verifier::external_body]
#[verifier::reject_recursive_types(T)]
pub struct ExQueue<T>(Queue<T>);

/// The items that wait in the queue, the next one to leave first.
pub uninterp spec fn queue_items(q: Queue<usize>) -> Seq<usize>;

/// The number of items beyond which the queue takes no more, where it was
/// given one.
pub uninterp spec fn queue_limit(q: Queue<usize>) -> Option<usize>;

/// `Queue::from` a vector: the queue holds the vector's items in their
/// order and has no limit.
#[verifier::external_body]
pub(crate) fn queue_of(items: Vec<usize>) -> (q: Queue<usize>)
    ensures
        queue_items(q) == items@,
        queue_limit(q) is None,
{
    Queue::from(items)
}

/// `Queue::queue`: a queue that is at its limit stays as it is and answers
/// `Err`; any other takes the item at its end and answers with its new
/// length.
#[verifier::external_body]
pub(crate) fn enqueue(q: &mut Queue<usize>, item: usize) -> (r: Result<usize, ()>)
    ensures
        queue_limit(*final(q)) == queue_limit(*old(q)),
        match queue_limit(*old(q)) {
            Some(limit) if queue_items(*old(q)).len() >= limit => {
                &&& r is Err
                &&& queue_items(*final(q)) == queue_items(*old(q))
            },
            _ => {
                &&& r == Ok::<usize, ()>((queue_items(*old(q)).len() + 1) as usize)
                &&& queue_items(*final(q)) == queue_items(*old(q)).push(item)
            },
        },
{
    q.queue(item)
}

/// `Queue::dequeue`: the first item leaves the queue and is the answer; an
/// empty queue stays empty and answers `None`.
#[verifier::external_body]
pub(crate) fn dequeue(q: &mut Queue<usize>) -> (r: Option<usize>)
    ensures
        queue_limit(*final(q)) == queue_limit(*old(q)),
        queue_items(*old(q)).len() > 0 ==> r == Some(queue_items(*old(q))[0]) && queue_items(
            *final(q),
        ) == queue_items(*old(q)).drop_first(),
        queue_items(*old(q)).len() == 0 ==> r is None && queue_items(*final(q)) == queue_items(
            *old(q),
        ),
{
    q.dequeue()
}

/// `Queue::is_empty`: whether no item waits.
#[verifier::external_body]
pub(crate) fn queue_is_empty(q: &Queue<usize>) -> (r: bool)
    ensures
        r == (queue_items(*q).len() == 0),
{
    q.is_empty()
}

} // verus!
