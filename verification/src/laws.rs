//! What holds between the operations of a sequence, stated over the views
//! that their contracts speak of.

use vstd::prelude::*;
use crate::sequence::{last_of, without_last};

verus! {

/// After `x` has been pushed onto `s`, the last element is `x` and the
/// length is one more than it was.
pub proof fn lemma_push_then_last<T>(s: Seq<T>, x: T)
    ensures
        last_of(s.push(x)) == Some(x),
        s.push(x).len() == s.len() + 1,
{
}

/// Popping takes out the element that `last` shows: on a sequence that is
/// not empty both give the element at the highest index and the pop leaves
/// one element fewer; on an empty one both give nothing and the pop leaves
/// it empty.
pub proof fn lemma_pop_takes_last<T>(s: Seq<T>)
    ensures
        s.len() > 0 ==> last_of(s) == Some(s[s.len() - 1]) && without_last(s).len() == s.len() - 1
            && without_last(s) == s.take(s.len() - 1),
        s.len() == 0 ==> last_of(s) == None::<T> && without_last(s) == s,
{
}

/// A pop straight after a push gives back what was pushed and leaves the
/// sequence as it was before the push.
pub proof fn lemma_push_then_pop<T>(s: Seq<T>, x: T)
    ensures
        last_of(s.push(x)) == Some(x),
        without_last(s.push(x)) == s,
{
}

/// Removing at `i` straight after inserting `x` at `i` gives `x` back and
/// restores the elements and the length.
pub proof fn lemma_insert_then_remove<T>(s: Seq<T>, i: int, x: T)
    requires
        0 <= i <= s.len(),
    ensures
        s.insert(i, x)[i] == x,
        s.insert(i, x).remove(i) == s,
        s.insert(i, x).remove(i).len() == s.len(),
{
}

/// Splitting `s` at `k` gives a front of `k` elements and a back of the
/// others, and the front followed by the back is `s`.
pub proof fn lemma_split_then_concat<T>(s: Seq<T>, k: int)
    requires
        0 <= k <= s.len(),
    ensures
        s.take(k) + s.skip(k) == s,
        s.take(k).len() == k,
        s.skip(k).len() == s.len() - k,
{
}

} // verus!
