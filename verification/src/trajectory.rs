//! The bounded history of trajectory samples.

use concurrent_queue::ConcurrentQueue;
use std::collections::VecDeque;
use std::sync::Arc;
use vstd::prelude::*;

use crate::queue::{queue_len, queue_pop};
use crate::vertex::Vertex;

verus! {

/// The newest `capacity` items of `s`, in their order: all of `s` where it
/// holds no more than that.
pub open spec fn tail_window<T>(s: Seq<T>, capacity: nat) -> Seq<T> {
    if s.len() <= capacity {
        s
    } else {
        s.subrange(s.len() - capacity, s.len() as int)
    }
}

/// `s` followed by copies of its last item, up to `size` items in all. An
/// empty `s` has no last item and stays empty.
pub open spec fn padded<T>(s: Seq<T>, size: nat) -> Seq<T> {
    if s.len() == 0 || s.len() >= size {
        s
    } else {
        s + Seq::new((size - s.len()) as nat, |i: int| s.last())
    }
}

/// What a history that held `before` may hold after `taken` samples came in
/// and it was cut to `capacity` again.
pub open spec fn appended(before: Seq<Vertex>, taken: nat, capacity: nat, after: Seq<Vertex>) -> bool {
    exists|drained: Seq<Vertex>|
        #[trigger] drained.len() == taken && after == tail_window(before + drained, capacity)
}

/// What a window holds after the items of `samples` were appended to it one
/// by one, each time cut to `capacity` again.
pub open spec fn pushed_all<T>(before: Seq<T>, samples: Seq<T>, capacity: nat) -> Seq<T>
    decreases samples.len(),
{
    if samples.len() == 0 {
        before
    } else {
        tail_window(
            pushed_all(before, samples.drop_last(), capacity).push(samples.last()),
            capacity,
        )
    }
}

/// Appending one item to a window and cutting again gives the window of the
/// longer sequence.
pub proof fn lemma_window_push<T>(s: Seq<T>, item: T, capacity: nat)
    ensures
        tail_window(tail_window(s, capacity).push(item), capacity) == tail_window(
            s.push(item),
            capacity,
        ),
{
}

/// Appending samples one by one gives the window over all of them at once.
pub proof fn lemma_pushed_all_is_window<T>(before: Seq<T>, samples: Seq<T>, capacity: nat)
    requires
        before.len() <= capacity,
    ensures
        pushed_all(before, samples, capacity) == tail_window(before + samples, capacity),
    decreases samples.len(),
{
    if samples.len() == 0 {
        assert(before + samples == before);
    } else {
        let front = samples.drop_last();
        lemma_pushed_all_is_window(before, front, capacity);
        lemma_window_push(before + front, samples.last(), capacity);
        assert((before + front).push(samples.last()) == before + samples);
    }
}

/// A history of capacity `capacity` that takes in `capacity + k` samples,
/// `k > 0`, holds exactly the last `capacity` of them afterwards, in their
/// order: the first `k` are gone, and so is whatever it held before.
pub proof fn lemma_overflow_keeps_newest<T>(
    before: Seq<T>,
    samples: Seq<T>,
    capacity: nat,
    k: nat,
)
    requires
        before.len() <= capacity,
        samples.len() == capacity + k,
        k > 0,
    ensures
        pushed_all(before, samples, capacity) == tail_window(before + samples, capacity),
        tail_window(before + samples, capacity) == samples.subrange(
            k as int,
            samples.len() as int,
        ),
        tail_window(before + samples, capacity).len() == capacity,
        forall|i: int|
            0 <= i < capacity ==> #[trigger] tail_window(before + samples, capacity)[i]
                == samples[k + i],
{
    lemma_pushed_all_is_window(before, samples, capacity);
}

/// The last `capacity` samples, oldest first.
pub struct Trajectory {
    points: VecDeque<Vertex>,
    size: usize,
}

impl View for Trajectory {
    type V = Seq<Vertex>;

    closed spec fn view(&self) -> Seq<Vertex> {
        self.points@
    }
}

impl Trajectory {
    #[verifier::type_invariant]
    spec fn within_capacity(&self) -> bool {
        self.points@.len() <= self.size
    }

    /// The number of samples that the history keeps at most.
    pub closed spec fn capacity(&self) -> nat {
        self.size as nat
    }

    /// An empty history that keeps up to `size` samples.
    pub fn new(size: usize) -> (trajectory: Trajectory)
        ensures
            trajectory@ == Seq::<Vertex>::empty(),
            trajectory.capacity() == size,
    {
        Trajectory { points: VecDeque::new(), size }
    }

    /// Appends `point` as the newest sample; a full history drops its oldest
    /// sample for it.
    pub fn push(&mut self, point: Vertex)
        ensures
            final(self)@ == tail_window(old(self)@.push(point), old(self).capacity()),
            final(self)@.len() <= final(self).capacity(),
            final(self).capacity() == old(self).capacity(),
    {
        proof {
            use_type_invariant(&*self);
        }
        if self.size == 0 {
            return ;
        }
        let mut points: VecDeque<Vertex> = VecDeque::new();
        std::mem::swap(&mut self.points, &mut points);
        if points.len() >= self.size {
            points.pop_front();
        }
        points.push_back(point);
        self.points = points;
    }

    /// Moves the samples that wait in `points_queue` into the history, oldest
    /// first, and returns how many it took.
    ///
    /// It takes no more than the queue held when the call began, so it ends
    /// even while a producer keeps pushing. Which samples arrive is up to the
    /// producer: the history is the window over what it held followed by
    /// whatever was taken.
    pub fn add_points(&mut self, points_queue: Arc<ConcurrentQueue<Vertex>>) -> (taken: usize)
        ensures
            appended(old(self)@, taken as nat, old(self).capacity(), final(self)@),
            final(self)@.len() <= final(self).capacity(),
            final(self).capacity() == old(self).capacity(),
    {
        proof {
            use_type_invariant(&*self);
        }
        let available = queue_len(&points_queue);
        let ghost mut drained: Seq<Vertex> = Seq::empty();
        let mut taken: usize = 0;
        assert(old(self)@ + drained == old(self)@);
        while taken < available
            invariant
                self.capacity() == old(self).capacity(),
                self@.len() <= self.capacity(),
                drained.len() == taken,
                self@ == tail_window(old(self)@ + drained, old(self).capacity()),
            decreases available - taken,
        {
            match queue_pop(&points_queue) {
                Some(point) => {
                    proof {
                        lemma_window_push(old(self)@ + drained, point, old(self).capacity());
                        assert((old(self)@ + drained).push(point) == old(self)@ + drained.push(
                            point,
                        ));
                        drained = drained.push(point);
                    }
                    self.push(point);
                    taken += 1;
                },
                None => {
                    break ;
                },
            }
        }
        taken
    }

    /// Empties the history; the capacity stays.
    pub fn clear(&mut self)
        ensures
            final(self)@ == Seq::<Vertex>::empty(),
            final(self).capacity() == old(self).capacity(),
    {
        let mut points: VecDeque<Vertex> = VecDeque::new();
        std::mem::swap(&mut self.points, &mut points);
        points.clear();
        self.points = points;
    }

    /// Sets the capacity to `size`; a history that holds more drops its
    /// oldest samples.
    pub fn resize(&mut self, size: usize)
        ensures
            final(self)@ == tail_window(old(self)@, size as nat),
            final(self)@.len() <= final(self).capacity(),
            final(self).capacity() == size,
    {
        let mut points: VecDeque<Vertex> = VecDeque::new();
        std::mem::swap(&mut self.points, &mut points);
        while points.len() > size
            invariant
                points@ == tail_window(old(self)@, points@.len()),
                points@.len() <= old(self)@.len(),
                points@.len() >= size || points@.len() == old(self)@.len(),
            decreases points@.len(),
        {
            points.pop_front();
        }
        self.size = size;
        self.points = points;
    }

    /// The samples for display, oldest first: a history that is neither
    /// empty nor full is filled up to its capacity with copies of its newest
    /// sample.
    pub fn padded_points(&self) -> (points: Vec<Vertex>)
        ensures
            points@ == padded(self@, self.capacity()),
    {
        proof {
            use_type_invariant(self);
        }
        let mut out: Vec<Vertex> = Vec::new();
        let held = self.points.len();
        if held == 0 {
            return out;
        }
        let mut i: usize = 0;
        while i < held
            invariant
                held == self.points@.len(),
                i <= held,
                out@ == self.points@.subrange(0, i as int),
            decreases held - i,
        {
            out.push(self.points[i]);
            i += 1;
        }
        let newest = self.points[held - 1];
        while i < self.size
            invariant
                held == self.points@.len(),
                0 < held <= i,
                newest == self.points@.last(),
                i <= self.size,
                out@ == self.points@ + Seq::new((i - held) as nat, |k: int| newest),
            decreases self.size - i,
        {
            out.push(newest);
            i += 1;
        }
        out
    }

    /// The samples held, oldest first.
    pub fn points(&self) -> (points: &VecDeque<Vertex>)
        ensures
            points@ == self@,
            points@.len() <= self.capacity(),
    {
        proof {
            use_type_invariant(self);
        }
        &self.points
    }

    /// The capacity.
    pub fn size(&self) -> (size: &usize)
        ensures
            *size == self.capacity(),
    {
        &self.size
    }
}

} // verus!
