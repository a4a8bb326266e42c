//! A fixed-capacity double-ended queue backed by a ring buffer.
//!
//! `BareMetalDeque<T, MAX_STORED>` stores at most `MAX_STORED` elements in a
//! fixed-length array, with no heap allocation and no resizing. The logical
//! front element lives at physical slot `start`, and the element at logical
//! index `i` lives at slot `(start + i) mod MAX_STORED`, so pushes and pops at
//! either end move only `start` and `size`, never the elements themselves.
//!
//! The abstract state of a deque is the sequence of its live elements from
//! front to back, written `self@`. Every operation's contract is stated over
//! that sequence.

pub mod laws;

use vstd::prelude::*;

verus! {

/// A double-ended queue of at most `MAX_STORED` elements, stored inline in a
/// ring buffer.
///
/// Every slot of the backing array always holds some value of `T` (initially
/// `T::default()`), but only the `size` slots starting at `start` (wrapping
/// around) are logically live; the rest are stale and never observable
/// through the public interface.
#[derive(Copy, Debug)]
pub struct BareMetalDeque<T: Default, const MAX_STORED: usize> {
    array: [T; MAX_STORED],
    start: usize,
    size: usize,
}

impl<T: Copy + Default, const MAX_STORED: usize> Clone for BareMetalDeque<T, MAX_STORED> {
    /// Duplication is a flat copy of all slots plus `start` and `size`.
    fn clone(&self) -> (c: Self)
        ensures
            c == *self,
    {
        *self
    }
}

impl<T: Default, const MAX_STORED: usize> BareMetalDeque<T, MAX_STORED> {
    /// The physical slot of logical index `i`: `(start + i) mod MAX_STORED`,
    /// written without `%` since `start + i` never reaches `2 * MAX_STORED`.
    spec fn slot_of(&self, i: int) -> int {
        if self.start + i < MAX_STORED {
            self.start + i
        } else {
            self.start + i - MAX_STORED
        }
    }

    #[verifier::type_invariant]
    spec fn well_formed(&self) -> bool {
        &&& self.size <= MAX_STORED
        &&& (self.start < MAX_STORED || self.start == 0)
    }
}

impl<T: Default, const MAX_STORED: usize> View for BareMetalDeque<T, MAX_STORED> {
    type V = Seq<T>;

    /// The live elements, front to back.
    closed spec fn view(&self) -> Seq<T> {
        Seq::new(self.size as nat, |i: int| self.array@[self.slot_of(i)])
    }
}

impl<T: Copy + Default, const MAX_STORED: usize> Default for BareMetalDeque<T, MAX_STORED> {
    /// The default deque is the empty deque.
    fn default() -> (q: Self)
        ensures
            q@ == Seq::<T>::empty(),
    {
        Self::new()
    }
}

impl<T: Copy + Default, const MAX_STORED: usize> BareMetalDeque<T, MAX_STORED> {
    /// Creates an empty deque with every slot of the backing store set to
    /// `T`'s default value.
    pub fn new() -> (q: Self)
        ensures
            q@ == Seq::<T>::empty(),
    {
        let q = Self { array: [T::default(); MAX_STORED], start: 0, size: 0 };
        proof {
            assert(q@ =~= Seq::<T>::empty());
        }
        q
    }

    /// The number of live elements; always at most `MAX_STORED`. Together
    /// with the operation contracts — each successful push grows the view by
    /// one element, each successful pop shrinks it by one — this keeps the
    /// length in `[0, MAX_STORED]` at every point (a sequence length is a
    /// natural number, so the lower bound is built in).
    pub fn len(&self) -> (n: usize)
        ensures
            n == self@.len(),
            n <= MAX_STORED,
    {
        proof {
            use_type_invariant(self);
        }
        self.size
    }

    /// Whether the deque holds no elements.
    pub fn is_empty(&self) -> (e: bool)
        ensures
            e == (self@.len() == 0),
    {
        self.len() == 0
    }

    /// Appends `value` at the back.
    ///
    /// Pushing into a full deque is a contract violation by the caller, who
    /// is expected to size `MAX_STORED` correctly, so a full deque is ruled
    /// out by the precondition.
    pub fn push_back(&mut self, value: T)
        requires
            old(self)@.len() < MAX_STORED,
        ensures
            final(self)@ == old(self)@.push(value),
    {
        proof {
            use_type_invariant(&*self);
        }
        let index: usize = if self.size < MAX_STORED - self.start {
            self.start + self.size
        } else {
            self.size - (MAX_STORED - self.start)
        };
        self.array[index] = value;
        self.size = self.size + 1;
        proof {
            assert(self@ =~= old(self)@.push(value));
        }
    }

    /// Prepends `value` at the front.
    ///
    /// As with `push_back`, a full deque is a caller contract violation and
    /// is ruled out by the precondition.
    pub fn push_front(&mut self, value: T)
        requires
            old(self)@.len() < MAX_STORED,
        ensures
            final(self)@ == seq![value] + old(self)@,
    {
        proof {
            use_type_invariant(&*self);
        }
        self.start = (if self.start == 0 {
            MAX_STORED
        } else {
            self.start
        }) - 1;
        self.array[self.start] = value;
        self.size = self.size + 1;
        proof {
            assert(self@ =~= seq![value] + old(self)@);
        }
    }

    /// Removes and returns the front element; `None` iff the deque is empty.
    pub fn pop_front(&mut self) -> (popped: Option<T>)
        ensures
            old(self)@.len() == 0 ==> popped is None && final(self)@ == old(self)@,
            old(self)@.len() > 0 ==> popped == Some(old(self)@[0]) && final(self)@ == old(
                self,
            )@.subrange(1, old(self)@.len() as int),
    {
        proof {
            use_type_invariant(&*self);
        }
        if self.size == 0 {
            None
        } else {
            let value = self.array[self.start];
            self.start = if self.start + 1 == MAX_STORED {
                0
            } else {
                self.start + 1
            };
            self.size = self.size - 1;
            proof {
                assert(self@ =~= old(self)@.subrange(1, old(self)@.len() as int));
            }
            Some(value)
        }
    }

    /// Removes and returns the back element; `None` iff the deque is empty.
    /// The vacated slot keeps its stale value and is no longer observable.
    pub fn pop_back(&mut self) -> (popped: Option<T>)
        ensures
            old(self)@.len() == 0 ==> popped is None && final(self)@ == old(self)@,
            old(self)@.len() > 0 ==> popped == Some(old(self)@.last()) && final(self)@ == old(
                self,
            )@.drop_last(),
    {
        proof {
            use_type_invariant(&*self);
        }
        if self.size == 0 {
            None
        } else {
            let index: usize = if self.size - 1 < MAX_STORED - self.start {
                self.start + (self.size - 1)
            } else {
                (self.size - 1) - (MAX_STORED - self.start)
            };
            let value = self.array[index];
            self.size = self.size - 1;
            proof {
                assert(self@ =~= old(self)@.drop_last());
            }
            Some(value)
        }
    }

    /// Returns the element at logical index `index` (0 is the front), or
    /// `None` if `index` is out of range.
    ///
    /// The range check is against the logical length, never the capacity: an
    /// out-of-range index is reported explicitly rather than wrapping around
    /// into a stale slot.
    pub fn get(&self, index: usize) -> (element: Option<T>)
        ensures
            index < self@.len() ==> element == Some(self@[index as int]),
            index >= self@.len() ==> element is None,
    {
        proof {
            use_type_invariant(self);
        }
        if index < self.size {
            let slot: usize = if index < MAX_STORED - self.start {
                self.start + index
            } else {
                index - (MAX_STORED - self.start)
            };
            Some(self.array[slot])
        } else {
            None
        }
    }

    /// Overwrites the element at logical index `index` with `value` and
    /// returns `true`, or leaves the deque unchanged and returns `false` if
    /// `index` is out of range.
    pub fn set(&mut self, index: usize, value: T) -> (ok: bool)
        ensures
            index < old(self)@.len() ==> ok && final(self)@ == old(self)@.update(
                index as int,
                value,
            ),
            index >= old(self)@.len() ==> !ok && final(self)@ == old(self)@,
    {
        proof {
            use_type_invariant(&*self);
        }
        if index < self.size {
            let slot: usize = if index < MAX_STORED - self.start {
                self.start + index
            } else {
                index - (MAX_STORED - self.start)
            };
            self.array[slot] = value;
            proof {
                assert(self@ =~= old(self)@.update(index as int, value));
            }
            true
        } else {
            false
        }
    }

    /// Returns the live elements, front to back, as a freshly built vector.
    /// The deque is not changed, and the traversal can be repeated at will.
    pub fn iter(&self) -> (elements: Vec<T>)
        ensures
            elements@ == self@,
    {
        proof {
            use_type_invariant(self);
        }
        let mut elements: Vec<T> = Vec::new();
        let mut i: usize = 0;
        while i < self.size
            invariant
                self.well_formed(),
                i <= self.size,
                elements@ == self@.subrange(0, i as int),
            decreases self.size - i,
        {
            let slot: usize = if i < MAX_STORED - self.start {
                self.start + i
            } else {
                i - (MAX_STORED - self.start)
            };
            elements.push(self.array[slot]);
            i = i + 1;
            proof {
                assert(elements@ =~= self@.subrange(0, i as int));
            }
        }
        proof {
            assert(elements@ =~= self@);
        }
        elements
    }

    /// Returns the front element without removing it; `None` iff empty.
    pub fn front(&self) -> (peeked: Option<T>)
        ensures
            self@.len() == 0 ==> peeked is None,
            self@.len() > 0 ==> peeked == Some(self@[0]),
    {
        proof {
            use_type_invariant(self);
        }
        if self.size > 0 {
            Some(self.array[self.start])
        } else {
            None
        }
    }

    /// Returns the back element without removing it; `None` iff empty.
    pub fn back(&self) -> (peeked: Option<T>)
        ensures
            self@.len() == 0 ==> peeked is None,
            self@.len() > 0 ==> peeked == Some(self@.last()),
    {
        proof {
            use_type_invariant(self);
        }
        if self.size > 0 {
            let index: usize = if self.size - 1 < MAX_STORED - self.start {
                self.start + (self.size - 1)
            } else {
                (self.size - 1) - (MAX_STORED - self.start)
            };
            Some(self.array[index])
        } else {
            None
        }
    }
}

} // verus!
