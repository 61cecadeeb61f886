//! A bounded FIFO queue with a drop-oldest overflow policy.
//!
//! The event channel between the capture loop and the presentation layer has
//! no backpressure; if the consumer stalls, an unbounded queue grows without
//! limit. For live mirroring the right overflow policy is to discard the
//! oldest entry and keep the newest, which this queue implements.

use vstd::prelude::*;

verus! {

/// A FIFO queue that never holds more than `capacity` entries: pushing onto
/// a full queue first discards the oldest entry.
pub struct BoundedQueue<T> {
    items: Vec<T>,
    capacity: usize,
}

impl<T> BoundedQueue<T> {
    /// The queued entries, oldest first.
    pub closed spec fn items(&self) -> Seq<T> {
        self.items@
    }

    /// The bound the queue was created with.
    pub closed spec fn capacity(&self) -> usize {
        self.capacity
    }

    pub closed spec fn wf(&self) -> bool {
        &&& self.capacity >= 1
        &&& self.items@.len() <= self.capacity
    }

    pub fn new(capacity: usize) -> (q: Self)
        requires
            capacity >= 1,
        ensures
            q.wf(),
            q.capacity() == capacity,
            q.items() =~= Seq::<T>::empty(),
    {
        BoundedQueue { items: Vec::new(), capacity }
    }

    pub fn len(&self) -> (n: usize)
        ensures
            n == self.items().len(),
    {
        self.items.len()
    }

    /// Append at the back; on a full queue the oldest entry is dropped first,
    /// so the newest entries always survive.
    pub fn push(&mut self, value: T)
        requires
            old(self).wf(),
        ensures
            final(self).wf(),
            final(self).capacity() == old(self).capacity(),
            old(self).items().len() < old(self).capacity() ==> final(self).items() == old(self).items().push(value),
            old(self).items().len() == old(self).capacity() ==> final(self).items() == old(self).items().drop_first().push(value),
    {
        if self.items.len() == self.capacity {
            proof {
                assert(self.items@.remove(0) =~= self.items@.drop_first());
            }
            self.items.remove(0);
        }
        self.items.push(value);
    }

    /// Take the oldest entry, if any.
    pub fn pop(&mut self) -> (r: Option<T>)
        requires
            old(self).wf(),
        ensures
            final(self).wf(),
            final(self).capacity() == old(self).capacity(),
            (match r {
                Some(v) => old(self).items().len() > 0 && v == old(self).items()[0]
                    && final(self).items() == old(self).items().drop_first(),
                None => old(self).items().len() == 0 && final(self).items() == old(self).items(),
            }),
    {
        if self.items.len() == 0 {
            None
        } else {
            proof {
                assert(self.items@.remove(0) =~= self.items@.drop_first());
            }
            Some(self.items.remove(0))
        }
    }
}

/// Law: the queue never exceeds its bound, and overflow discards exactly the
/// oldest entry — after a push the newest entry is always the last one.
pub proof fn lemma_drop_oldest<T>(q0: BoundedQueue<T>, q1: BoundedQueue<T>, value: T)
    requires
        q0.wf(),
        q0.items().len() < q0.capacity() ==> q1.items() == q0.items().push(value),
        q0.items().len() == q0.capacity() ==> q1.items() == q0.items().drop_first().push(value),
    ensures
        q1.items().len() <= q0.capacity(),
        q1.items().last() == value,
        q0.items().len() == q0.capacity() ==> q1.items() =~= q0.items().subrange(
            1,
            q0.items().len() as int,
        ).push(value),
{
}

} // verus!
