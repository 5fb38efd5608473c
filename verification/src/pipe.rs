//! The pipe: a bounded queue that describes its occupancy in a status
//! message after every mutation.
use crate::queue::{evicted, pushed, BoundedQueue};
use crate::wire::{encode, frame_text, json_string, EncodeError};
use std::sync::{Arc, Mutex};
use vstd::prelude::*;

verus! {

/// The mutual-exclusion lock of std, carried through as an opaque value.
#[verifier::external_type_specification]
#[verifier::external_body]
#[verifier::reject_recursive_types(T)]
pub struct ExMutex<T: ?Sized>(std::sync::Mutex<T>);

/// `Mutex::new`, which puts a value behind a lock. What the lock holds later
/// is up to whoever locks it, so nothing is stated of the result.
pub assume_specification<T>[ std::sync::Mutex::<T>::new ](t: T) -> (m: std::sync::Mutex<T>);

/// A snapshot of a pipe's occupancy.
#[derive(Debug, Clone, PartialEq, Eq)]
pub struct PipeMessage {
    /// The name of the pipe that the snapshot was taken of.
    pub name: String,
    /// The number of elements held when it was taken.
    pub size: usize,
    /// The pipe's fixed capacity.
    pub max_capacity: usize,
}

impl PipeMessage {
    /// The message with the given fields.
    pub fn new(name: String, size: usize, max_capacity: usize) -> (msg: Self)
        ensures
            msg.name == name,
            msg.size == size,
            msg.max_capacity == max_capacity,
    {
        PipeMessage { name, size, max_capacity }
    }

    /// The message in its wire format: the frame around the JSON string
    /// literal of the name, or a failure where the name has none.
    pub fn to_json(&self) -> (out: Result<String, EncodeError>)
        ensures
            match json_string(self.name@) {
                Some(name_json) => out matches Ok(text) && text@ == frame_text(
                    name_json,
                    self.size as nat,
                    self.max_capacity as nat,
                ),
                None => out is Err,
            },
    {
        encode(self.name.as_str(), self.size, self.max_capacity)
    }
}

/// A bounded queue with a name and the address that its status messages are
/// published to.
pub struct Pipe<T> {
    address: String,
    name: String,
    queue: BoundedQueue<T>,
}

impl<T> View for Pipe<T> {
    type V = Seq<T>;

    /// The elements, oldest first.
    closed spec fn view(&self) -> Seq<T> {
        self.queue@
    }
}

impl<T> Pipe<T> {
    /// The capacity fixed at construction.
    pub closed spec fn capacity(&self) -> nat {
        self.queue.capacity()
    }

    /// The name fixed at construction.
    pub closed spec fn name_view(&self) -> Seq<char> {
        self.name@
    }

    /// The address fixed at construction.
    pub closed spec fn address_view(&self) -> Seq<char> {
        self.address@
    }

    /// The pipe's invariant: the capacity is positive and is never exceeded.
    pub open spec fn wf(&self) -> bool {
        &&& 1 <= self.capacity()
        &&& self@.len() <= self.capacity()
    }

    /// Whether `msg` is the status message of the pipe as it is.
    pub open spec fn described_by(&self, msg: PipeMessage) -> bool {
        &&& msg.name@ == self.name_view()
        &&& msg.size == self@.len()
        &&& msg.max_capacity == self.capacity()
    }

    /// An empty pipe of capacity `max_capacity`.
    pub fn new(max_capacity: usize, address: String, name: String) -> (pipe: Self)
        requires
            max_capacity >= 1,
        ensures
            pipe.wf(),
            pipe@ == Seq::<T>::empty(),
            pipe.capacity() == max_capacity,
            pipe.address_view() == address@,
            pipe.name_view() == name@,
    {
        Pipe { address, name, queue: BoundedQueue::new(max_capacity) }
    }

    /// An empty pipe of capacity `max_capacity`, if that is positive.
    pub fn try_new(max_capacity: usize, address: String, name: String) -> (out: Option<Self>)
        ensures
            max_capacity == 0 <==> out.is_none(),
            out matches Some(pipe) ==> {
                &&& pipe.wf()
                &&& pipe@ == Seq::<T>::empty()
                &&& pipe.capacity() == max_capacity
                &&& pipe.address_view() == address@
                &&& pipe.name_view() == name@
            },
    {
        if max_capacity == 0 {
            None
        } else {
            Some(Self::new(max_capacity, address, name))
        }
    }

    /// An empty pipe of capacity `max_capacity` behind a lock, to be shared
    /// among threads. The lock is opaque here and what it holds is up to
    /// whoever locks it, so nothing is stated of the handle.
    pub fn new_shared(max_capacity: usize, address: String, name: String) -> (shared: Arc<
        Mutex<Self>,
    >)
        requires
            max_capacity >= 1,
    {
        Arc::new(Mutex::new(Self::new(max_capacity, address, name)))
    }

    /// The capacity fixed at construction.
    pub fn max_capacity(&self) -> (c: usize)
        ensures
            c == self.capacity(),
    {
        self.queue.max_capacity()
    }

    /// The name fixed at construction.
    pub fn name(&self) -> (name: &str)
        ensures
            name@ == self.name_view(),
    {
        self.name.as_str()
    }

    /// The address fixed at construction.
    pub fn address(&self) -> (address: &str)
        ensures
            address@ == self.address_view(),
    {
        self.address.as_str()
    }

    /// Appends `item`; a full pipe first gives up its oldest element. Returns
    /// that element, if any, and the status message to publish.
    pub fn push_back(&mut self, item: T) -> (out: (Option<T>, PipeMessage))
        requires
            old(self).wf(),
        ensures
            final(self).wf(),
            final(self).capacity() == old(self).capacity(),
            final(self).name_view() == old(self).name_view(),
            final(self).address_view() == old(self).address_view(),
            final(self)@ == pushed(old(self)@, old(self).capacity(), item),
            out.0 == evicted(old(self)@, old(self).capacity()),
            out.0 is Some ==> final(self)@.len() == old(self)@.len(),
            out.0 is None ==> final(self)@.len() == old(self)@.len() + 1,
            final(self).described_by(out.1),
            out.1.size <= out.1.max_capacity,
    {
        let out = self.queue.push_back(item);
        (out, self.report_status())
    }

    /// Removes the oldest element, if there is one. Returns it and the status
    /// message to publish.
    pub fn pop_front(&mut self) -> (out: (Option<T>, PipeMessage))
        requires
            old(self).wf(),
        ensures
            final(self).wf(),
            final(self).capacity() == old(self).capacity(),
            final(self).name_view() == old(self).name_view(),
            final(self).address_view() == old(self).address_view(),
            old(self)@.len() == 0 ==> out.0.is_none() && final(self)@ == old(self)@,
            old(self)@.len() > 0 ==> out.0 == Some(old(self)@[0]) && final(self)@
                == old(self)@.subrange(1, old(self)@.len() as int),
            final(self).described_by(out.1),
            out.1.size <= out.1.max_capacity,
    {
        let out = self.queue.pop_front();
        (out, self.report_status())
    }

    /// The number of elements held.
    pub fn len(&mut self) -> (n: usize)
        ensures
            *final(self) == *old(self),
            n == old(self)@.len(),
    {
        self.queue.len()
    }

    /// The status message that describes the pipe as it is.
    pub fn report_status(&self) -> (msg: PipeMessage)
        requires
            self.wf(),
        ensures
            self.described_by(msg),
            msg.size <= msg.max_capacity,
    {
        PipeMessage::new(self.name.clone(), self.queue.len(), self.queue.max_capacity())
    }

    /// The element at position `i`, counted from the oldest, if there is one.
    pub fn get(&self, i: usize) -> (out: Option<&T>)
        ensures
            i < self@.len() ==> out == Some(&self@[i as int]),
            i >= self@.len() ==> out.is_none(),
    {
        self.queue.get(i)
    }

    /// The element at position `index`, counted from the oldest, for writing.
    pub fn index_mut(&mut self, index: usize) -> (out: &mut T)
        requires
            index < old(self)@.len(),
        ensures
            *out == old(self)@[index as int],
            final(self)@ == old(self)@.update(index as int, *final(out)),
            final(self).capacity() == old(self).capacity(),
            final(self).name_view() == old(self).name_view(),
            final(self).address_view() == old(self).address_view(),
    {
        self.queue.index_mut(index)
    }
}

impl<T> vstd::std_specs::core::IndexSpecImpl<usize> for Pipe<T> {
    open spec fn index_req(&self, index: &usize) -> bool {
        *index < self@.len()
    }
}

impl<T> std::ops::Index<usize> for Pipe<T> {
    type Output = T;

    /// The element at position `index`, counted from the oldest.
    fn index(&self, index: usize) -> (out: &T)
        ensures
            *out == self@[index as int],
    {
        &self.queue[index]
    }
}

} // verus!
