//! A bounded queue that drops the oldest element when full, as ROS 2 depth
//! QoS expects.
//!
//! Unlike channels that block or drop the newest element when full, this queue
//! keeps the most recent N elements, where N is the capacity. A capacity of
//! `usize::MAX` makes the queue effectively unbounded (KeepAll). Locking and
//! waking of receivers belong to whoever shares the queue between threads.

use vstd::prelude::*;

verus! {

pub struct BoundedQueue<T> {
    data: std::collections::VecDeque<T>,
    capacity: usize,
}

impl<T> View for BoundedQueue<T> {
    type V = Seq<T>;

    /// The queued items, oldest first.
    closed spec fn view(&self) -> Seq<T> {
        self.data@
    }
}

/// The most items a queue of capacity `capacity` can hold: a push into a full
/// queue first drops the oldest item, so even capacity 0 holds the newest one.
pub open spec fn max_items(capacity: usize) -> nat {
    if capacity == 0 {
        1
    } else {
        capacity as nat
    }
}

/// The queue contents after pushing `item` onto `items` at capacity `capacity`:
/// a queue at capacity loses its oldest item first.
pub open spec fn after_push<T>(items: Seq<T>, capacity: usize, item: T) -> Seq<T> {
    if items.len() >= capacity && items.len() > 0 {
        items.skip(1).push(item)
    } else {
        items.push(item)
    }
}

/// The queue contents after pushing each of `pushed`, in order, onto an empty
/// queue at capacity `capacity`.
pub open spec fn after_pushes<T>(capacity: usize, pushed: Seq<T>) -> Seq<T>
    decreases pushed.len(),
{
    if pushed.len() == 0 {
        Seq::empty()
    } else {
        after_push(after_pushes(capacity, pushed.drop_last()), capacity, pushed.last())
    }
}

/// A queue keeps the most recent items: after any sequence of pushes onto an
/// empty queue of capacity `capacity` (at least 1), it holds the last
/// `capacity` items pushed (or all of them, if fewer), oldest first.
pub proof fn lemma_keeps_most_recent<T>(capacity: usize, pushed: Seq<T>)
    requires
        capacity >= 1,
    ensures
        after_pushes(capacity, pushed) == pushed.skip(
            if pushed.len() > capacity {
                pushed.len() - capacity
            } else {
                0
            },
        ),
    decreases pushed.len(),
{
    if pushed.len() > 0 {
        let prefix = pushed.drop_last();
        lemma_keeps_most_recent(capacity, prefix);
        let before = after_pushes(capacity, prefix);
        if prefix.len() >= capacity {
            assert(before.skip(1).push(pushed.last()) =~= pushed.skip(pushed.len() - capacity));
        } else {
            assert(before.push(pushed.last()) =~= pushed.skip(0));
        }
    } else {
        assert(pushed.skip(0) =~= Seq::<T>::empty());
    }
}

impl<T> BoundedQueue<T> {
    #[verifier::type_invariant]
    spec fn within_bound(self) -> bool {
        self.data@.len() <= max_items(self.capacity)
    }

    pub closed spec fn spec_capacity(self) -> usize {
        self.capacity
    }

    /// Creates an empty queue with the given capacity.
    pub fn new(capacity: usize) -> (r: Self)
        ensures
            r@ == Seq::<T>::empty(),
            r.spec_capacity() == capacity,
    {
        let reserve = if capacity < 1024 {
            capacity
        } else {
            1024
        };
        BoundedQueue { data: std::collections::VecDeque::with_capacity(reserve), capacity }
    }

    /// Pushes an item, dropping the oldest one if the queue is at capacity.
    ///
    /// Returns `true` if an item was dropped, `false` otherwise.
    pub fn push(&mut self, item: T) -> (dropped: bool)
        ensures
            dropped == (old(self)@.len() >= old(self).spec_capacity() && old(self)@.len() > 0),
            final(self).spec_capacity() == old(self).spec_capacity(),
            final(self)@ == after_push(old(self)@, old(self).spec_capacity(), item),
            final(self)@.len() <= max_items(final(self).spec_capacity()),
    {
        proof {
            use_type_invariant(&*self);
        }
        let mut data = std::collections::VecDeque::new();
        std::mem::swap(&mut data, &mut self.data);
        let dropped = if data.len() >= self.capacity {
            data.pop_front().is_some()
        } else {
            false
        };
        data.push_back(item);
        assert(data@ =~= after_push(old(self)@, old(self).spec_capacity(), item));
        self.data = data;
        dropped
    }

    /// Takes the oldest item, if there is one.
    pub fn try_recv(&mut self) -> (r: Option<T>)
        ensures
            final(self).spec_capacity() == old(self).spec_capacity(),
            old(self)@.len() == 0 ==> r is None && final(self)@ == old(self)@,
            old(self)@.len() > 0 ==> r == Some(old(self)@[0]) && final(self)@ == old(self)@.skip(1),
    {
        proof {
            use_type_invariant(&*self);
        }
        let mut data = std::collections::VecDeque::new();
        std::mem::swap(&mut data, &mut self.data);
        let r = data.pop_front();
        assert(old(self)@.len() > 0 ==> data@ =~= old(self)@.skip(1));
        self.data = data;
        r
    }

    /// Whether the queue holds no item.
    pub fn is_empty(&self) -> (r: bool)
        ensures
            r == (self@.len() == 0),
    {
        self.data.len() == 0
    }

    /// The number of queued items; never more than the capacity allows.
    pub fn len(&self) -> (r: usize)
        ensures
            r == self@.len(),
            r <= max_items(self.spec_capacity()),
    {
        proof {
            use_type_invariant(self);
        }
        self.data.len()
    }

    /// The capacity the queue was made with.
    pub fn capacity(&self) -> (r: usize)
        ensures
            r == self.spec_capacity(),
    {
        self.capacity
    }
}

/// How long a timed receive may still wait, given its whole budget and the
/// time already spent, both in nanoseconds. `None` means the deadline has
/// passed. Waking without an item never extends the budget: each retry waits
/// only for what is left of the initial deadline.
pub fn remaining_wait(timeout: u64, elapsed: u64) -> (r: Option<u64>)
    ensures
        elapsed >= timeout ==> r is None,
        elapsed < timeout ==> r == Some((timeout - elapsed) as u64),
{
    let remaining = timeout.saturating_sub(elapsed);
    if remaining == 0 {
        None
    } else {
        Some(remaining)
    }
}

} // verus!
