use vstd::prelude::*;
use std::collections::VecDeque;
use crate::counter::{inc, saturating_inc};

verus! {

/// What became of an item offered to a [`BoundedQueue`].
#[derive(Clone, Copy, Debug, PartialEq, Eq, Structural)]
pub enum PushOutcome {
    /// The item was appended at the back.
    Accepted,
    /// The queue was full: the item was discarded and the contents kept.
    Dropped,
}

/// The outcome of offering one item to a queue that holds `len` items
/// and has room for `capacity`.
pub open spec fn push_outcome(len: nat, capacity: nat) -> PushOutcome {
    if len < capacity {
        PushOutcome::Accepted
    } else {
        PushOutcome::Dropped
    }
}

/// The contents after offering `item` to a queue holding `items`:
/// the newest item is the one that gives way when there is no room.
pub open spec fn after_push<T>(items: Seq<T>, capacity: nat, item: T) -> Seq<T> {
    if items.len() < capacity {
        items.push(item)
    } else {
        items
    }
}

/// The contents after offering each of `offered`, in order, to a queue
/// that held `start`.
pub open spec fn after_pushes<T>(start: Seq<T>, capacity: nat, offered: Seq<T>) -> Seq<T>
    decreases offered.len(),
{
    if offered.len() == 0 {
        start
    } else {
        after_push(
            after_pushes(start, capacity, offered.drop_last()),
            capacity,
            offered.last(),
        )
    }
}

/// Offering items one after another to a queue that starts empty keeps the
/// first `capacity` of them, oldest first, whatever follows.
pub proof fn lemma_fill_keeps_oldest<T>(capacity: nat, offered: Seq<T>)
    ensures
        after_pushes(Seq::<T>::empty(), capacity, offered) == offered.take(
            if offered.len() < capacity {
                offered.len() as int
            } else {
                capacity as int
            },
        ),
    decreases offered.len(),
{
    if offered.len() > 0 {
        let rest = offered.drop_last();
        lemma_fill_keeps_oldest(capacity, rest);
        if rest.len() < capacity {
            assert(rest.push(offered.last()) =~= offered);
            assert(offered.take(offered.len() as int) =~= offered);
        } else {
            assert(rest.take(capacity as int) =~= offered.take(capacity as int));
        }
    } else {
        assert(offered.take(0) =~= offered);
    }
}

/// Offering items one after another to an empty queue of capacity
/// `capacity`: each of the first `capacity` offers is accepted, each later
/// one is dropped, and the queue ends up holding exactly the first
/// `capacity` items offered, in the order they were offered.
pub proof fn lemma_overflow_drops_newest<T>(capacity: nat, offered: Seq<T>)
    ensures
        forall|i: int|
            0 <= i < offered.len() ==> push_outcome(
                #[trigger] after_pushes(Seq::<T>::empty(), capacity, offered.take(i)).len(),
                capacity,
            ) == if i < capacity {
                PushOutcome::Accepted
            } else {
                PushOutcome::Dropped
            },
        offered.len() > capacity ==> after_pushes(Seq::<T>::empty(), capacity, offered)
            == offered.take(capacity as int),
        offered.len() <= capacity ==> after_pushes(Seq::<T>::empty(), capacity, offered)
            == offered,
{
    assert forall|i: int|
        0 <= i < offered.len() implies push_outcome(
            #[trigger] after_pushes(Seq::<T>::empty(), capacity, offered.take(i)).len(),
            capacity,
        ) == if i < capacity {
            PushOutcome::Accepted
        } else {
            PushOutcome::Dropped
        } by {
        lemma_fill_keeps_oldest(capacity, offered.take(i));
    }
    lemma_fill_keeps_oldest(capacity, offered);
    assert(offered.take(offered.len() as int) =~= offered);
}

/// A first-in first-out queue of fixed capacity that never waits:
/// an item offered while it is full is dropped and counted.
pub struct BoundedQueue<T> {
    items: VecDeque<T>,
    capacity: usize,
    dropped: u64,
}

impl<T> View for BoundedQueue<T> {
    type V = Seq<T>;

    /// The items held, oldest first.
    closed spec fn view(&self) -> Seq<T> {
        self.items@
    }
}

impl<T> BoundedQueue<T> {
    /// The number of items the queue can hold.
    pub closed spec fn spec_capacity(&self) -> nat {
        self.capacity as nat
    }

    /// How many offered items were dropped, saturating at `u64::MAX`.
    pub closed spec fn spec_dropped(&self) -> u64 {
        self.dropped
    }

    /// Never more items than the capacity.
    pub open spec fn well_formed(&self) -> bool {
        self@.len() <= self.spec_capacity()
    }

    /// An empty queue with room for `capacity` items.
    pub fn new(capacity: usize) -> (q: Self)
        ensures
            q.well_formed(),
            q@ == Seq::<T>::empty(),
            q.spec_capacity() == capacity,
            q.spec_dropped() == 0,
    {
        BoundedQueue { items: VecDeque::new(), capacity, dropped: 0 }
    }

    /// Offers `item` without waiting: it is appended if there is room,
    /// and otherwise dropped, leaving the contents as they were.
    pub fn try_push(&mut self, item: T) -> (r: PushOutcome)
        requires
            old(self).well_formed(),
        ensures
            final(self).well_formed(),
            r == push_outcome(old(self)@.len(), old(self).spec_capacity()),
            final(self)@ == after_push(old(self)@, old(self).spec_capacity(), item),
            final(self).spec_capacity() == old(self).spec_capacity(),
            r == PushOutcome::Accepted ==> final(self).spec_dropped() == old(self).spec_dropped(),
            r == PushOutcome::Dropped ==> final(self).spec_dropped() == saturating_inc(
                old(self).spec_dropped(),
            ),
    {
        if self.items.len() < self.capacity {
            self.items.push_back(item);
            PushOutcome::Accepted
        } else {
            self.dropped = inc(self.dropped);
            PushOutcome::Dropped
        }
    }

    /// Takes the oldest item without waiting, or `None` when empty.
    pub fn try_pop(&mut self) -> (r: Option<T>)
        requires
            old(self).well_formed(),
        ensures
            final(self).well_formed(),
            final(self).spec_capacity() == old(self).spec_capacity(),
            final(self).spec_dropped() == old(self).spec_dropped(),
            old(self)@.len() == 0 ==> r.is_none() && final(self)@ == old(self)@,
            old(self)@.len() > 0 ==> r == Some(old(self)@[0]) && final(self)@ == old(self)@.drop_first(),
    {
        self.items.pop_front()
    }

    /// Discards everything held; the drop count is kept.
    pub fn clear(&mut self)
        requires
            old(self).well_formed(),
        ensures
            final(self).well_formed(),
            final(self)@ == Seq::<T>::empty(),
            final(self).spec_capacity() == old(self).spec_capacity(),
            final(self).spec_dropped() == old(self).spec_dropped(),
    {
        self.items.clear();
    }

    /// The number of items held.
    pub fn len(&self) -> (r: usize)
        ensures
            r == self@.len(),
    {
        self.items.len()
    }

    /// Whether nothing is held.
    pub fn is_empty(&self) -> (r: bool)
        ensures
            r == (self@.len() == 0),
    {
        self.items.len() == 0
    }

    /// Whether an item offered now would be dropped.
    pub fn is_full(&self) -> (r: bool)
        ensures
            r == (self@.len() >= self.spec_capacity()),
    {
        self.items.len() >= self.capacity
    }

    /// The number of items the queue can hold.
    pub fn capacity(&self) -> (r: usize)
        ensures
            r == self.spec_capacity(),
    {
        self.capacity
    }

    /// How many offered items were dropped.
    pub fn dropped(&self) -> (r: u64)
        ensures
            r == self.spec_dropped(),
    {
        self.dropped
    }
}

} // verus!
