//! The growable sequence.

use vstd::prelude::*;
use crate::cursor::Cursor;
use crate::error::{OutOfRange, ReserveError};
use crate::growth::{capacity_for, next_capacity, plan_reservation, planned_capacity, settle_reservation};

verus! {

/// The last element of `s`, if there is one.
pub open spec fn last_of<T>(s: Seq<T>) -> Option<T> {
    if s.len() > 0 {
        Some(s.last())
    } else {
        None
    }
}

/// `s` without its last element; `s` itself where it is empty.
pub open spec fn without_last<T>(s: Seq<T>) -> Seq<T> {
    if s.len() > 0 {
        s.drop_last()
    } else {
        s
    }
}

/// The first `len` elements of `s`; `s` itself where it has no more than
/// `len`.
pub open spec fn truncated<T>(s: Seq<T>, len: nat) -> Seq<T> {
    if len < s.len() {
        s.take(len as int)
    } else {
        s
    }
}

/// The capacity left when a sequence of `len` elements and `cap` slots gives
/// back what lies beyond `min_capacity`: the larger of `len` and
/// `min_capacity`, and never more than `cap`.
pub open spec fn shrunk_capacity(cap: nat, len: nat, min_capacity: nat) -> nat {
    let bound = if min_capacity > len {
        min_capacity
    } else {
        len
    };
    if bound < cap {
        bound
    } else {
        cap
    }
}

/// Hands back to the allocator what `buf` holds beyond `min_capacity` slots
/// and beyond its length, through `Vec::shrink_to`. The elements stay as they
/// are.
#[verifier::external_body]
fn release_spare<T>(buf: &mut Vec<T>, min_capacity: usize)
    ensures
        final(buf)@ == old(buf)@,
{
    buf.shrink_to(min_capacity);
}

/// A contiguous, owning, growable sequence of `T`.
///
/// The view is the sequence of the elements in index order. The capacity is
/// the number of slots that the sequence has reserved; the length never
/// exceeds it. Every growth asks the buffer for room up to the new capacity,
/// and every shrink keeps at least the new capacity, so no storage is asked
/// for while the length stays within the capacity. Where the allocator cannot
/// provide the storage that a growth asks for, the program ends; only
/// [`DynamicSequence::try_reserve`] reports that failure instead.
#[derive(Debug)]
pub struct DynamicSequence<T> {
    buf: Vec<T>,
    cap: usize,
}

impl<T> View for DynamicSequence<T> {
    type V = Seq<T>;

    closed spec fn view(&self) -> Seq<T> {
        self.buf@
    }
}

impl<T> DynamicSequence<T> {
    #[verifier::type_invariant]
    spec fn within_capacity(self) -> bool {
        self.buf@.len() <= self.cap
    }

    /// The number of elements.
    pub open spec fn spec_len(&self) -> usize {
        self@.len() as usize
    }

    /// The number of elements that fit before the sequence has to grow.
    pub closed spec fn spec_capacity(&self) -> usize {
        self.cap
    }

    /// Moves the buffer out and leaves an empty one, so that the buffer can
    /// be changed while the sequence itself stays within its capacity.
    fn take_buf(&mut self) -> (buf: Vec<T>)
        ensures
            buf == old(self).buf,
            final(self).buf@ == Seq::<T>::empty(),
            final(self).cap == old(self).cap,
    {
        let mut buf: Vec<T> = Vec::new();
        core::mem::swap(&mut buf, &mut self.buf);
        buf
    }

    /// An empty sequence that holds no storage.
    pub fn new() -> (s: Self)
        ensures
            s@ == Seq::<T>::empty(),
            s.capacity() == 0,
    {
        DynamicSequence { buf: Vec::new(), cap: 0 }
    }

    /// An empty sequence with room for `capacity` elements.
    pub fn with_capacity(capacity: usize) -> (s: Self)
        ensures
            s@ == Seq::<T>::empty(),
            s.capacity() == capacity,
    {
        DynamicSequence { buf: Vec::with_capacity(capacity), cap: capacity }
    }

    /// The sequence of the elements of `items`, with no room to spare.
    pub fn from_vec(items: Vec<T>) -> (s: Self)
        ensures
            s@ == items@,
            s.capacity() == items@.len(),
    {
        let cap = items.len();
        DynamicSequence { buf: items, cap }
    }

    /// The elements, in order, as a `Vec`.
    pub fn into_vec(self) -> (items: Vec<T>)
        ensures
            items@ == self@,
    {
        self.buf
    }

    /// The number of elements.
    #[verifier::when_used_as_spec(spec_len)]
    pub fn len(&self) -> (n: usize)
        ensures
            n == self@.len(),
            n == self.spec_len(),
    {
        self.buf.len()
    }

    /// Whether the sequence holds no element.
    pub fn is_empty(&self) -> (b: bool)
        ensures
            b == (self@.len() == 0),
    {
        self.buf.len() == 0
    }

    /// The number of elements that fit before the sequence has to grow. It
    /// is never below the length.
    #[verifier::when_used_as_spec(spec_capacity)]
    pub fn capacity(&self) -> (c: usize)
        ensures
            c == self.spec_capacity(),
            c >= self@.len(),
    {
        proof {
            use_type_invariant(self);
        }
        self.cap
    }

    /// Adds `value` behind the last element, growing first where the
    /// sequence is full.
    pub fn push(&mut self, value: T)
        requires
            old(self)@.len() < usize::MAX,
        ensures
            final(self).capacity() >= final(self)@.len(),
            final(self)@ == old(self)@.push(value),
            final(self).capacity() == capacity_for(
                old(self).capacity() as nat,
                old(self)@.len() + 1,
            ),
    {
        proof {
            use_type_invariant(&*self);
        }
        let mut buf = self.take_buf();
        let target = next_capacity(self.cap, buf.len() + 1);
        if target > self.cap {
            buf.reserve(target - buf.len());
            self.cap = target;
        }
        buf.push(value);
        self.buf = buf;
    }

    /// Takes the last element out, if there is one.
    pub fn pop(&mut self) -> (value: Option<T>)
        ensures
            final(self).capacity() >= final(self)@.len(),
            value == last_of(old(self)@),
            final(self)@ == without_last(old(self)@),
            final(self).capacity() == old(self).capacity(),
    {
        proof {
            use_type_invariant(&*self);
        }
        let mut buf = self.take_buf();
        let value = buf.pop();
        self.buf = buf;
        value
    }

    /// The last element, if there is one.
    pub fn last(&self) -> (value: Option<&T>)
        ensures
            match value {
                Some(r) => last_of(self@) == Some(*r),
                None => last_of(self@) == None::<T>,
            },
    {
        let n = self.buf.len();
        if n == 0 {
            None
        } else {
            Some(&self.buf[n - 1])
        }
    }

    /// The element at `index`, if there is one.
    pub fn get(&self, index: usize) -> (value: Option<&T>)
        ensures
            match value {
                Some(r) => index < self@.len() && *r == self@[index as int],
                None => index >= self@.len(),
            },
    {
        if index < self.buf.len() {
            Some(&self.buf[index])
        } else {
            None
        }
    }

    /// The elements, in order, as a slice.
    pub fn as_slice(&self) -> (items: &[T])
        ensures
            items@ == self@,
    {
        self.buf.as_slice()
    }

    /// Puts `value` at `index` and moves the elements from `index` on one
    /// place to the right. An `index` beyond the length is refused and leaves
    /// the sequence as it was.
    pub fn insert(&mut self, index: usize, value: T) -> (r: Result<(), OutOfRange>)
        requires
            index <= old(self)@.len() ==> old(self)@.len() < usize::MAX,
        ensures
            final(self).capacity() >= final(self)@.len(),
            index <= old(self)@.len() ==> r == Ok::<(), OutOfRange>(())
                && final(self)@ == old(self)@.insert(index as int, value)
                && final(self).capacity() == capacity_for(
                    old(self).capacity() as nat,
                    old(self)@.len() + 1,
                ),
            index > old(self)@.len() ==> r == Err::<(), OutOfRange>(
                OutOfRange { index, len: old(self).len() },
            ) && final(self)@ == old(self)@ && final(self).capacity() == old(self).capacity(),
    {
        proof {
            use_type_invariant(&*self);
        }
        let len = self.buf.len();
        if index > len {
            return Err(OutOfRange { index, len });
        }
        let mut buf = self.take_buf();
        let target = next_capacity(self.cap, len + 1);
        if target > self.cap {
            buf.reserve(target - len);
            self.cap = target;
        }
        buf.insert(index, value);
        self.buf = buf;
        Ok(())
    }

    /// Takes the element at `index` out and moves the elements behind it one
    /// place to the left. An `index` at or beyond the length is refused and
    /// leaves the sequence as it was.
    pub fn remove(&mut self, index: usize) -> (r: Result<T, OutOfRange>)
        ensures
            final(self).capacity() >= final(self)@.len(),
            index < old(self)@.len() ==> r == Ok::<T, OutOfRange>(old(self)@[index as int])
                && final(self)@ == old(self)@.remove(index as int),
            index >= old(self)@.len() ==> r == Err::<T, OutOfRange>(
                OutOfRange { index, len: old(self).len() },
            ) && final(self)@ == old(self)@,
            final(self).capacity() == old(self).capacity(),
    {
        proof {
            use_type_invariant(&*self);
        }
        let len = self.buf.len();
        if index >= len {
            return Err(OutOfRange { index, len });
        }
        let mut buf = self.take_buf();
        let value = buf.remove(index);
        self.buf = buf;
        Ok(value)
    }

    /// Moves every element of `other` behind the elements of this sequence,
    /// in order, and leaves `other` empty with the capacity it had.
    pub fn append(&mut self, other: &mut Self)
        requires
            old(self)@.len() + old(other)@.len() <= usize::MAX,
        ensures
            final(self).capacity() >= final(self)@.len(),
            final(other).capacity() >= final(other)@.len(),
            final(self)@ == old(self)@ + old(other)@,
            final(other)@ == Seq::<T>::empty(),
            final(self).capacity() == capacity_for(
                old(self).capacity() as nat,
                old(self)@.len() + old(other)@.len(),
            ),
            final(other).capacity() == old(other).capacity(),
    {
        proof {
            use_type_invariant(&*self);
            use_type_invariant(&*other);
        }
        let mut buf = self.take_buf();
        let mut tail = other.take_buf();
        let target = next_capacity(self.cap, buf.len() + tail.len());
        if target > self.cap {
            buf.reserve(target - buf.len());
            self.cap = target;
        }
        buf.append(&mut tail);
        self.buf = buf;
        other.buf = tail;
    }

    /// Makes room for `additional` more elements. The elements stay as they
    /// are; the capacity grows only where it does not suffice.
    pub fn reserve(&mut self, additional: usize)
        requires
            old(self)@.len() + additional <= usize::MAX,
        ensures
            final(self).capacity() >= final(self)@.len(),
            final(self)@ == old(self)@,
            final(self).capacity() == capacity_for(
                old(self).capacity() as nat,
                (old(self)@.len() + additional) as nat,
            ),
            final(self).capacity() >= old(self)@.len() + additional,
    {
        proof {
            use_type_invariant(&*self);
        }
        let mut buf = self.take_buf();
        let target = next_capacity(self.cap, buf.len() + additional);
        if target > self.cap {
            buf.reserve(target - buf.len());
            self.cap = target;
        }
        self.buf = buf;
    }

    /// Gives back all capacity beyond the length.
    pub fn shrink_to_fit(&mut self)
        ensures
            final(self).capacity() >= final(self)@.len(),
            final(self)@ == old(self)@,
            final(self).capacity() == old(self)@.len(),
            final(self).capacity() <= old(self).capacity(),
    {
        proof {
            use_type_invariant(&*self);
        }
        let mut buf = self.take_buf();
        let len = buf.len();
        release_spare(&mut buf, len);
        self.buf = buf;
        self.cap = len;
    }

    /// Gives back the capacity beyond `min_capacity`, and never more than
    /// the capacity beyond the length. A sequence whose capacity is already
    /// at or below that bound stays as it is.
    pub fn shrink_to(&mut self, min_capacity: usize)
        ensures
            final(self).capacity() >= final(self)@.len(),
            final(self)@ == old(self)@,
            final(self).capacity() == shrunk_capacity(
                old(self).capacity() as nat,
                old(self)@.len(),
                min_capacity as nat,
            ),
            final(self).capacity() <= old(self).capacity(),
    {
        proof {
            use_type_invariant(&*self);
        }
        let mut buf = self.take_buf();
        let len = buf.len();
        let bound = if min_capacity > len {
            min_capacity
        } else {
            len
        };
        if bound < self.cap {
            release_spare(&mut buf, bound);
            self.buf = buf;
            self.cap = bound;
        } else {
            self.buf = buf;
        }
    }

    /// Drops every element. The capacity stays.
    pub fn clear(&mut self)
        ensures
            final(self).capacity() >= final(self)@.len(),
            final(self)@ == Seq::<T>::empty(),
            final(self).capacity() == old(self).capacity(),
    {
        let mut buf = self.take_buf();
        buf.clear();
        self.buf = buf;
    }

    /// Drops the elements from position `len` on. A `len` at or beyond the
    /// length changes nothing.
    pub fn truncate(&mut self, len: usize)
        ensures
            final(self).capacity() >= final(self)@.len(),
            final(self)@ == truncated(old(self)@, len as nat),
            final(self).capacity() == old(self).capacity(),
    {
        proof {
            use_type_invariant(&*self);
        }
        let mut buf = self.take_buf();
        buf.truncate(len);
        self.buf = buf;
    }

    /// Splits the sequence at `at`: the elements from `at` on leave in a
    /// sequence of their own, with no room to spare, and this one keeps the
    /// elements before `at` and its capacity. An `at` beyond the length is
    /// refused and leaves the sequence as it was.
    pub fn split_off(&mut self, at: usize) -> (r: Result<Self, OutOfRange>)
        ensures
            final(self).capacity() >= final(self)@.len(),
            match r {
                Ok(tail) => {
                    &&& at <= old(self)@.len()
                    &&& final(self)@ == old(self)@.take(at as int)
                    &&& tail@ == old(self)@.skip(at as int)
                    &&& final(self)@ + tail@ == old(self)@
                    &&& final(self)@.len() == at
                    &&& tail@.len() == old(self)@.len() - at
                    &&& tail.capacity() == tail@.len()
                },
                Err(e) => {
                    &&& at > old(self)@.len()
                    &&& e == OutOfRange { index: at, len: old(self).len() }
                    &&& final(self)@ == old(self)@
                },
            },
            final(self).capacity() == old(self).capacity(),
    {
        proof {
            use_type_invariant(&*self);
        }
        let len = self.buf.len();
        if at > len {
            return Err(OutOfRange { index: at, len });
        }
        let mut buf = self.take_buf();
        let rest = buf.split_off(at);
        self.buf = buf;
        Ok(DynamicSequence::from_vec(rest))
    }

    /// A cursor at the front of the sequence.
    pub fn iter(&self) -> (c: Cursor<'_, T>)
        ensures
            c.source() == self@,
            c.position() == 0,
    {
        Cursor::new(self.buf.as_slice())
    }

    /// Makes room for `additional` more elements where the allocator
    /// provides it, and reports a failure where it does not. The elements
    /// stay as they are; a failed request leaves the capacity as it was.
    pub fn try_reserve(&mut self, additional: usize) -> (r: Result<(), ReserveError>)
        ensures
            final(self).capacity() >= final(self)@.len(),
            final(self)@ == old(self)@,
            old(self)@.len() + additional <= old(self).capacity() ==> r == Ok::<(), ReserveError>(()),
            match r {
                Ok(_) => planned_capacity(
                    old(self).capacity() as nat,
                    old(self)@.len(),
                    additional as nat,
                ) == Ok::<nat, ReserveError>(final(self).capacity() as nat),
                Err(e) => {
                    &&& final(self).capacity() == old(self).capacity()
                    &&& e == ReserveError::CapacityOverflow <==> old(self)@.len() + additional
                        > usize::MAX
                    &&& e == ReserveError::AllocationFailed <==> old(self).capacity()
                        < old(self)@.len() + additional <= usize::MAX
                },
            },
    {
        proof {
            use_type_invariant(&*self);
        }
        let len = self.buf.len();
        match plan_reservation(self.cap, len, additional) {
            Err(e) => Err(e),
            Ok(target) => {
                if target <= self.cap {
                    return Ok(());
                }
                let mut buf = self.take_buf();
                let allocated = buf.try_reserve(target - len).is_ok();
                self.buf = buf;
                match settle_reservation(target, allocated) {
                    Ok(cap) => {
                        self.cap = cap;
                        Ok(())
                    },
                    Err(e) => Err(e),
                }
            },
        }
    }

    /// Brings the length to `new_len`: drops the elements from `new_len` on,
    /// or fills the new places, front to back, with what `producer` returns,
    /// one call for each place.
    pub fn resize_with<F: FnMut() -> T>(&mut self, new_len: usize, mut producer: F)
        requires
            call_requires(producer, ()),
        ensures
            final(self).capacity() >= final(self)@.len(),
            final(self)@.len() == new_len,
            new_len <= old(self)@.len() ==> final(self)@ == truncated(old(self)@, new_len as nat),
            new_len > old(self)@.len() ==> final(self)@.take(old(self)@.len() as int) == old(self)@,
            forall|i: int|
                old(self)@.len() <= i < new_len ==> call_ensures(
                    producer,
                    (),
                    #[trigger] final(self)@[i],
                ),
            final(self).capacity() == capacity_for(old(self).capacity() as nat, new_len as nat),
    {
        proof {
            use_type_invariant(&*self);
        }
        let mut buf = self.take_buf();
        let len = buf.len();
        if new_len <= len {
            buf.truncate(new_len);
            self.buf = buf;
            return;
        }
        let target = next_capacity(self.cap, new_len);
        if target > self.cap {
            buf.reserve(target - len);
            self.cap = target;
        }
        let ghost before = buf@;
        let ghost given = producer;
        while buf.len() < new_len
            invariant
                producer == given,
                call_requires(producer, ()),
                len <= buf@.len() <= new_len,
                before.len() == len,
                buf@.take(len as int) == before,
                forall|i: int| len <= i < buf@.len() ==> call_ensures(producer, (), #[trigger] buf@[i]),
            decreases new_len - buf@.len(),
        {
            let item = producer();
            buf.push(item);
        }
        self.buf = buf;
    }
}

impl<T: Clone> DynamicSequence<T> {
    /// Brings the length to `new_len`: drops the elements from `new_len` on,
    /// or fills the new places with clones of `value`.
    pub fn resize(&mut self, new_len: usize, value: T)
        ensures
            final(self).capacity() >= final(self)@.len(),
            final(self)@.len() == new_len,
            new_len <= old(self)@.len() ==> final(self)@ == truncated(old(self)@, new_len as nat),
            new_len > old(self)@.len() ==> final(self)@.take(old(self)@.len() as int) == old(self)@,
            forall|i: int|
                old(self)@.len() <= i < new_len ==> cloned(value, #[trigger] final(self)@[i]),
            final(self).capacity() == capacity_for(old(self).capacity() as nat, new_len as nat),
    {
        proof {
            use_type_invariant(&*self);
        }
        let mut buf = self.take_buf();
        let len = buf.len();
        let target = next_capacity(self.cap, new_len);
        if target > self.cap {
            buf.reserve(target - len);
            self.cap = target;
        }
        buf.resize(new_len, value);
        self.buf = buf;
    }
}

} // verus!
