//! The bounded queue: at most `max_capacity` elements, oldest first.
use std::collections::VecDeque;
use vstd::prelude::*;

verus! {

/// The contents of a queue of capacity `cap` that held `s` after `item` is
/// pushed: `item` goes to the back, and the front leaves if `s` was full.
pub open spec fn pushed<T>(s: Seq<T>, cap: nat, item: T) -> Seq<T>
    recommends
        cap >= 1,
{
    if s.len() >= cap {
        s.subrange(1, s.len() as int).push(item)
    } else {
        s.push(item)
    }
}

/// The element that a push onto a queue of capacity `cap` holding `s` evicts.
pub open spec fn evicted<T>(s: Seq<T>, cap: nat) -> Option<T>
    recommends
        cap >= 1,
{
    if s.len() >= cap {
        Some(s[0])
    } else {
        None
    }
}

/// The element of `deque` at position `i`, for writing. This is `VecDeque`'s
/// `index_mut`: position 0 is the front, and what is written through the
/// reference replaces the element at `i` and nothing else.
#[verifier::external_body]
fn deque_index_mut<T>(deque: &mut VecDeque<T>, i: usize) -> (element: &mut T)
    requires
        i < old(deque)@.len(),
    ensures
        *element == old(deque)@[i as int],
        final(deque)@ == old(deque)@.update(i as int, *final(element)),
{
    &mut deque[i]
}

/// A FIFO queue that never holds more than `max_capacity` elements.
pub struct BoundedQueue<T> {
    max_capacity: usize,
    deque: VecDeque<T>,
}

impl<T> View for BoundedQueue<T> {
    type V = Seq<T>;

    /// The elements, oldest first.
    closed spec fn view(&self) -> Seq<T> {
        self.deque@
    }
}

impl<T> BoundedQueue<T> {
    /// The queue's invariant: the capacity is positive and is never exceeded.
    pub open spec fn wf(&self) -> bool {
        &&& 1 <= self.capacity()
        &&& self@.len() <= self.capacity()
    }

    /// The capacity fixed at construction.
    pub closed spec fn capacity(&self) -> nat {
        self.max_capacity as nat
    }

    /// An empty queue of capacity `max_capacity`.
    pub fn new(max_capacity: usize) -> (q: Self)
        requires
            max_capacity >= 1,
        ensures
            q.wf(),
            q@ == Seq::<T>::empty(),
            q.capacity() == max_capacity,
    {
        BoundedQueue { max_capacity, deque: VecDeque::new() }
    }

    /// An empty queue of capacity `max_capacity`, if that is positive.
    pub fn try_new(max_capacity: usize) -> (out: Option<Self>)
        ensures
            max_capacity == 0 <==> out.is_none(),
            out matches Some(q) ==> q.wf() && q@ == Seq::<T>::empty() && q.capacity()
                == max_capacity,
    {
        if max_capacity == 0 {
            None
        } else {
            Some(Self::new(max_capacity))
        }
    }

    /// The capacity fixed at construction.
    pub fn max_capacity(&self) -> (c: usize)
        ensures
            c == self.capacity(),
    {
        self.max_capacity
    }

    /// The number of elements held.
    pub fn len(&self) -> (n: usize)
        ensures
            n == self@.len(),
    {
        self.deque.len()
    }

    /// Appends `item`; a full queue first gives up its oldest element, which
    /// is returned.
    pub fn push_back(&mut self, item: T) -> (out: Option<T>)
        requires
            old(self).wf(),
        ensures
            final(self).wf(),
            final(self).capacity() == old(self).capacity(),
            final(self)@ == pushed(old(self)@, old(self).capacity(), item),
            out == evicted(old(self)@, old(self).capacity()),
            out is Some ==> final(self)@.len() == old(self)@.len(),
            out is None ==> final(self)@.len() == old(self)@.len() + 1,
    {
        if self.deque.len() == self.max_capacity {
            let out = self.deque.pop_front();
            self.deque.push_back(item);
            out
        } else {
            self.deque.push_back(item);
            None
        }
    }

    /// Removes and returns the oldest element, if there is one.
    pub fn pop_front(&mut self) -> (out: Option<T>)
        requires
            old(self).wf(),
        ensures
            final(self).wf(),
            final(self).capacity() == old(self).capacity(),
            old(self)@.len() == 0 ==> out.is_none() && final(self)@ == old(self)@,
            old(self)@.len() > 0 ==> out == Some(old(self)@[0]) && final(self)@
                == old(self)@.subrange(1, old(self)@.len() as int),
    {
        self.deque.pop_front()
    }

    /// The element at position `i`, counted from the oldest, if there is one.
    pub fn get(&self, i: usize) -> (out: Option<&T>)
        ensures
            i < self@.len() ==> out == Some(&self@[i as int]),
            i >= self@.len() ==> out.is_none(),
    {
        if i < self.deque.len() {
            Some(&self.deque[i])
        } else {
            None
        }
    }

    /// The element at position `index`, counted from the oldest, for writing.
    pub fn index_mut(&mut self, index: usize) -> (out: &mut T)
        requires
            index < old(self)@.len(),
        ensures
            *out == old(self)@[index as int],
            final(self)@ == old(self)@.update(index as int, *final(out)),
            final(self).capacity() == old(self).capacity(),
    {
        deque_index_mut(&mut self.deque, index)
    }
}

impl<T> vstd::std_specs::core::IndexSpecImpl<usize> for BoundedQueue<T> {
    open spec fn index_req(&self, index: &usize) -> bool {
        *index < self@.len()
    }
}

impl<T> std::ops::Index<usize> for BoundedQueue<T> {
    type Output = T;

    /// The element at position `index`, counted from the oldest.
    fn index(&self, index: usize) -> (out: &T)
        ensures
            *out == self@[index as int],
    {
        &self.deque[index]
    }
}

} // verus!
