//! Reading a sequence front to back.

use vstd::prelude::*;

verus! {

/// A read-only pass over the elements of a sequence, in index order.
///
/// A cursor borrows the elements, so the sequence cannot change while a
/// cursor over it is alive. Every cursor starts at the front.
#[derive(Debug)]
pub struct Cursor<'a, T> {
    items: &'a [T],
    pos: usize,
}

impl<'a, T> Cursor<'a, T> {
    #[verifier::type_invariant]
    spec fn within_items(self) -> bool {
        self.pos <= self.items@.len()
    }

    /// The elements that the cursor passes over, from the first.
    pub closed spec fn source(&self) -> Seq<T> {
        self.items@
    }

    /// The number of elements that the cursor has handed out.
    pub closed spec fn position(&self) -> nat {
        self.pos as nat
    }

    /// The elements that the cursor has yet to hand out.
    pub open spec fn pending(&self) -> Seq<T> {
        self.source().skip(self.position() as int)
    }

    /// A cursor at the front of `items`.
    pub fn new(items: &'a [T]) -> (c: Self)
        ensures
            c.source() == items@,
            c.position() == 0,
    {
        Cursor { items, pos: 0 }
    }

    /// Hands out the next element and moves past it; `None` once every
    /// element has been handed out, and from then on.
    pub fn next(&mut self) -> (item: Option<&'a T>)
        ensures
            final(self).source() == old(self).source(),
            old(self).position() <= old(self).source().len(),
            match item {
                Some(r) => {
                    &&& old(self).position() < old(self).source().len()
                    &&& *r == old(self).source()[old(self).position() as int]
                    &&& final(self).position() == old(self).position() + 1
                },
                None => {
                    &&& old(self).position() == old(self).source().len()
                    &&& final(self).position() == old(self).position()
                },
            },
    {
        proof {
            use_type_invariant(&*self);
        }
        if self.pos < self.items.len() {
            let item = &self.items[self.pos];
            self.pos = self.pos + 1;
            Some(item)
        } else {
            None
        }
    }

    /// The number of elements yet to be handed out.
    pub fn remaining(&self) -> (n: usize)
        ensures
            n == self.pending().len(),
            n == self.source().len() - self.position(),
    {
        proof {
            use_type_invariant(self);
        }
        self.items.len() - self.pos
    }
}

} // verus!
