//! A last-in, first-out stack over a [`DynamicSequence`].

use vstd::prelude::*;
use crate::sequence::{last_of, without_last, DynamicSequence};

verus! {

/// A stack of `T`. It owns one sequence and has no state of its own: the top
/// of the stack is the last element of the sequence.
#[derive(Debug)]
pub struct Stack<T> {
    s: DynamicSequence<T>,
}

impl<T> View for Stack<T> {
    type V = Seq<T>;

    /// The elements from the bottom of the stack to its top.
    closed spec fn view(&self) -> Seq<T> {
        self.s@
    }
}

impl<T> Stack<T> {
    /// An empty stack.
    pub fn new() -> (stack: Self)
        ensures
            stack@ == Seq::<T>::empty(),
    {
        Stack { s: DynamicSequence::new() }
    }

    /// Puts `value` on top.
    pub fn push(&mut self, value: T)
        requires
            old(self)@.len() < usize::MAX,
        ensures
            final(self)@ == old(self)@.push(value),
    {
        self.s.push(value)
    }

    /// Takes the top element off, if there is one.
    pub fn pop(&mut self) -> (value: Option<T>)
        ensures
            value == last_of(old(self)@),
            final(self)@ == without_last(old(self)@),
    {
        self.s.pop()
    }

    /// The top element, if there is one.
    pub fn top(&self) -> (value: Option<&T>)
        ensures
            match value {
                Some(r) => last_of(self@) == Some(*r),
                None => last_of(self@) == None::<T>,
            },
    {
        self.s.last()
    }
}

} // verus!
