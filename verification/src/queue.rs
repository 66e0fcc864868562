//! The sample queue between the simulation thread and the history.

use concurrent_queue::ConcurrentQueue;
use vstd::prelude::*;

verus! {

#[verifier::external_type_specification]
#[verifier::external_body]
#[verifier::reject_recursive_types(T)]
pub struct ExConcurrentQueue<T>(ConcurrentQueue<T>);

/// `ConcurrentQueue::len`: the number of items in the queue at some moment
/// of the call. Producers on other threads may push at any time, so nothing
/// is claimed of the number.
#[verifier::external_body]
pub(crate) fn queue_len<T>(queue: &ConcurrentQueue<T>) -> (len: usize) {
    queue.len()
}

/// `ConcurrentQueue::pop`: the oldest item, or `None` where the queue is
/// empty (closed or not). Which item comes depends on the other threads, so
/// nothing is claimed of it.
#[verifier::external_body]
pub(crate) fn queue_pop<T>(queue: &ConcurrentQueue<T>) -> (item: Option<T>) {
    queue.pop().ok()
}

} // verus!
