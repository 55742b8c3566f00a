//! A concrete cursor over the elements of a `Vec`.

use crate::linq_adapters::LinqIteratorExtensions;
use vstd::prelude::*;

verus! {

/// A cursor that yields the elements of a `Vec`, front first, by value.
pub struct VecCursor<T> {
    items: Vec<T>,
}

impl<T> VecCursor<T> {
    /// A cursor that will yield the elements of `items` in order.
    pub fn new(items: Vec<T>) -> (c: Self)
        ensures
            c.wf(),
            c.remaining() == items@,
    {
        VecCursor { items }
    }

    /// Peek the number of elements left, without consuming any.
    ///
    /// This query does not alter the cursor, so repeated calls return the
    /// same count; contrast [`count`](LinqIteratorExtensions::count), the
    /// one-shot tally that exhausts the cursor.
    pub fn len(&self) -> (n: usize)
        ensures
            n == self.remaining().len(),
    {
        self.items.len()
    }
}

impl<T> LinqIteratorExtensions for VecCursor<T> {
    type Item = T;

    closed spec fn wf(&self) -> bool {
        true
    }

    closed spec fn remaining(&self) -> Seq<T> {
        self.items@
    }

    fn next(&mut self) -> (r: Option<T>) {
        if self.items.len() == 0 {
            None
        } else {
            let x = self.items.remove(0);
            proof {
                assert(self.items@ =~= old(self).items@.drop_first());
            }
            Some(x)
        }
    }
}

/// Two results that the peek-length query may return for one and the same
/// cursor are equal: the count is a function of the cursor's view alone, and
/// the query leaves the cursor untouched.
pub proof fn lemma_peek_len_agrees<T>(c: VecCursor<T>, n1: usize, n2: usize)
    requires
        n1 == c.remaining().len(),
        n2 == c.remaining().len(),
    ensures
        n1 == n2,
{
}

} // verus!
