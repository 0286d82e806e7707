//! A fixed-capacity ring buffer, viewed abstractly as the sequence of its
//! elements, oldest first.

use vstd::prelude::*;

verus! {

/// A fixed-capacity circular queue.  `push` into a full buffer overwrites
/// the oldest element; `try_push` refuses instead.
pub struct RingBuffer<T> {
    buffer: Vec<Option<T>>,
    head: usize,
    tail: usize,
    capacity: usize,
    len: usize,
}

impl<T> RingBuffer<T> {
    /// The slot of the `i`th oldest element.
    pub closed spec fn slot(self, i: int) -> int {
        if self.tail + i < self.capacity {
            self.tail + i
        } else {
            self.tail + i - self.capacity
        }
    }

    /// Whether slot `j` belongs to the circular range of live elements.
    pub closed spec fn live(self, j: int) -> bool {
        if self.tail + self.len <= self.capacity {
            self.tail <= j < self.tail + self.len
        } else {
            j >= self.tail || j < self.tail + self.len - self.capacity
        }
    }

    /// The declared capacity.
    pub closed spec fn spec_capacity(self) -> int {
        self.capacity as int
    }

    /// Internal consistency: exactly the live slots hold values, and the
    /// cursors stay inside the allocation.
    pub closed spec fn wf(self) -> bool {
        &&& self.buffer.len() == self.capacity
        &&& self.capacity > 0
        &&& self.len <= self.capacity
        &&& self.tail < self.capacity
        &&& self.head == self.slot(self.len as int)
        &&& (forall|j: int| 0 <= j < self.capacity ==> ((#[trigger] self.buffer@[j]) is Some
            <==> self.live(j)))
    }
}

impl<T> View for RingBuffer<T> {
    type V = Seq<T>;

    /// The stored elements, oldest first.
    closed spec fn view(&self) -> Seq<T> {
        Seq::new(self.len as nat, |i: int| self.buffer@[self.slot(i)]->Some_0)
    }
}

impl<T: Clone> RingBuffer<T> {
    /// Creates an empty buffer that can hold `capacity` elements.
    pub fn new(capacity: usize) -> (rb: Self)
        requires
            capacity > 0,
        ensures
            rb.wf(),
            rb@ == Seq::<T>::empty(),
            rb.spec_capacity() == capacity,
    {
        let mut buffer: Vec<Option<T>> = Vec::new();
        let mut i: usize = 0;
        while i < capacity
            invariant
                i <= capacity,
                buffer@.len() == i,
                forall|j: int| 0 <= j < i ==> (#[trigger] buffer@[j]) is None,
            decreases capacity - i,
        {
            buffer.push(None);
            i = i + 1;
        }
        let rb = RingBuffer { buffer, head: 0, tail: 0, capacity, len: 0 };
        proof {
            assert(rb@ =~= Seq::<T>::empty());
        }
        rb
    }

    /// The total capacity of the buffer.
    pub fn capacity(&self) -> (r: usize)
        ensures
            r == self.spec_capacity(),
    {
        self.capacity
    }

    /// The number of elements currently stored.
    pub fn len(&self) -> (r: usize)
        ensures
            r == self@.len(),
    {
        self.len
    }

    /// Whether the buffer holds no elements.
    pub fn is_empty(&self) -> (r: bool)
        ensures
            r == (self@.len() == 0),
    {
        self.len == 0
    }

    /// Whether the buffer is at capacity.
    pub fn is_full(&self) -> (r: bool)
        ensures
            r == (self@.len() == self.spec_capacity()),
    {
        self.len == self.capacity
    }

    /// Adds an element; when the buffer is full, the oldest element is
    /// overwritten.
    pub fn push(&mut self, item: T)
        requires
            old(self).wf(),
        ensures
            final(self).wf(),
            final(self).spec_capacity() == old(self).spec_capacity(),
            old(self)@.len() < old(self).spec_capacity() ==> final(self)@
                == old(self)@.push(item),
            old(self)@.len() == old(self).spec_capacity() ==> final(self)@
                == old(self)@.skip(1).push(item),
    {
        let ghost was_full = self.len == self.capacity;
        if self.is_full() {
            self.buffer.set(self.head, Some(item));
            self.tail = if self.tail + 1 == self.capacity { 0 } else { self.tail + 1 };
        } else {
            self.buffer.set(self.head, Some(item));
            self.len = self.len + 1;
        }
        self.head = if self.head + 1 == self.capacity { 0 } else { self.head + 1 };
        proof {
            assert forall|j: int| 0 <= j < self.capacity implies ((#[trigger] self.buffer@[j])
                is Some <==> self.live(j)) by {
                if j != old(self).head {
                    assert(old(self).buffer@[j] is Some <==> old(self).live(j));
                }
            }
            if was_full {
                assert(self@ =~= old(self)@.skip(1).push(item));
            } else {
                assert(self@ =~= old(self)@.push(item));
            }
        }
    }

    /// Adds an element only if there is room; a full buffer is left
    /// unchanged.
    pub fn try_push(&mut self, item: T)
        requires
            old(self).wf(),
        ensures
            final(self).wf(),
            final(self).spec_capacity() == old(self).spec_capacity(),
            old(self)@.len() < old(self).spec_capacity() ==> final(self)@
                == old(self)@.push(item),
            old(self)@.len() == old(self).spec_capacity() ==> *final(self) == *old(self),
    {
        if self.is_full() {
            return;
        }
        self.buffer.set(self.head, Some(item));
        self.len = self.len + 1;
        self.head = if self.head + 1 == self.capacity { 0 } else { self.head + 1 };
        proof {
            assert forall|j: int| 0 <= j < self.capacity implies ((#[trigger] self.buffer@[j])
                is Some <==> self.live(j)) by {
                if j != old(self).head {
                    assert(old(self).buffer@[j] is Some <==> old(self).live(j));
                }
            }
            assert(self@ =~= old(self)@.push(item));
        }
    }

    /// Removes and returns the oldest element; `None` when empty.
    pub fn pop(&mut self) -> (r: Option<T>)
        requires
            old(self).wf(),
        ensures
            final(self).wf(),
            final(self).spec_capacity() == old(self).spec_capacity(),
            old(self)@.len() == 0 ==> r is None && *final(self) == *old(self),
            old(self)@.len() > 0 ==> r == Some(old(self)@[0]) && final(self)@
                == old(self)@.skip(1),
    {
        if self.is_empty() {
            return None;
        }
        proof {
            assert(self.live(self.tail as int));
            assert(self.buffer@[self.tail as int] is Some);
        }
        let mut item: Option<T> = None;
        self.buffer.set_and_swap(self.tail, &mut item);
        self.tail = if self.tail + 1 == self.capacity { 0 } else { self.tail + 1 };
        self.len = self.len - 1;
        proof {
            assert forall|j: int| 0 <= j < self.capacity implies ((#[trigger] self.buffer@[j])
                is Some <==> self.live(j)) by {
                if j != old(self).tail {
                    assert(old(self).buffer@[j] is Some <==> old(self).live(j));
                }
            }
            assert(self@ =~= old(self)@.skip(1));
            assert(self.slot(0) == old(self).slot(1));
        }
        item
    }

    /// The oldest element, left in place; `None` when empty.
    pub fn peek(&self) -> (r: Option<&T>)
        requires
            self.wf(),
        ensures
            self@.len() == 0 ==> r is None,
            self@.len() > 0 ==> (r matches Some(x) && *x == self@[0]),
    {
        if self.is_empty() {
            None
        } else {
            proof {
                assert(self.live(self.tail as int));
                assert(self.buffer@[self.tail as int] is Some);
                assert(self.slot(0) == self.tail as int);
            }
            self.buffer[self.tail].as_ref()
        }
    }

    /// A mutable reference to the oldest element; `None` when empty.
    pub fn peek_mut(&mut self) -> (r: Option<&mut T>)
        requires
            old(self).wf(),
        ensures
            final(self).wf(),
            final(self).spec_capacity() == old(self).spec_capacity(),
            old(self)@.len() == 0 ==> r is None && *final(self) == *old(self),
            old(self)@.len() > 0 ==> (r matches Some(p) && *p == old(self)@[0]
                && final(self)@ =~= old(self)@.update(0, *final(p))),
    {
        if self.is_empty() {
            return None;
        }
        proof {
            assert(self.live(self.tail as int));
            assert(self.buffer@[self.tail as int] is Some);
            assert(self.slot(0) == self.tail as int);
        }
        match &mut self.buffer[self.tail] {
            Some(p) => Some(p),
            None => None,
        }
    }

    /// Removes every element.
    pub fn clear(&mut self)
        requires
            old(self).wf(),
        ensures
            final(self).wf(),
            final(self).spec_capacity() == old(self).spec_capacity(),
            final(self)@ == Seq::<T>::empty(),
    {
        self.head = 0;
        self.tail = 0;
        self.len = 0;
        let mut i: usize = 0;
        while i < self.capacity
            invariant
                i <= self.capacity,
                self.buffer.len() == self.capacity,
                self.capacity == old(self).capacity,
                self.capacity > 0,
                self.head == 0,
                self.tail == 0,
                self.len == 0,
                forall|j: int| 0 <= j < i ==> (#[trigger] self.buffer@[j]) is None,
            decreases self.capacity - i,
        {
            self.buffer.set(i, None);
            i = i + 1;
        }
        proof {
            assert(self@ =~= Seq::<T>::empty());
        }
    }
}

} // verus!
