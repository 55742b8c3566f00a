//! The cursor trait and its scalar extension operations.

use vstd::prelude::*;

verus! {

/// A single-pass forward cursor over a finite sequence of elements, extended
/// with LINQ-style scalar operations.
///
/// An implementor provides `next`, which either yields the first element of
/// [`remaining`](Self::remaining) or signals exhaustion, together with the
/// two specification functions.  The extension operations (`single`,
/// `first_or`, and their variants) are provided here once, with contracts
/// proved against the contract of `next` alone.
///
/// Advancing is destructive: a cursor never restarts, and once
/// [`remaining`](Self::remaining) is empty every later `next` signals
/// exhaustion again.
pub trait LinqIteratorExtensions {
    type Item;

    /// Validity of the cursor value; constructors establish it and every
    /// operation preserves it.
    spec fn wf(&self) -> bool;

    /// The sequence of elements this cursor has yet to yield, front first.
    spec fn remaining(&self) -> Seq<Self::Item>;

    /// Yield the next element, or `None` once the cursor is exhausted.
    ///
    /// An exhausted cursor stays exhausted: when `remaining` is empty it is
    /// left unchanged, so every later call returns `None` as well.
    fn next(&mut self) -> (r: Option<Self::Item>)
        requires
            old(self).wf(),
        ensures
            final(self).wf(),
            old(self).remaining().len() == 0 ==> r is None
                && final(self).remaining() == old(self).remaining(),
            old(self).remaining().len() > 0 ==> r == Some(old(self).remaining()[0])
                && final(self).remaining() == old(self).remaining().drop_first(),
    ;

    /// The sole element, if the cursor yields exactly one; `None` if it was
    /// empty or yields a second element.  Advances at most twice.
    fn single(&mut self) -> (r: Option<Self::Item>)
        requires
            old(self).wf(),
        ensures
            final(self).wf(),
            old(self).remaining().len() == 1 ==> r == Some(old(self).remaining()[0]),
            old(self).remaining().len() != 1 ==> r is None,
            old(self).remaining().len() <= 1 ==> final(self).remaining().len() == 0,
            old(self).remaining().len() >= 2
                ==> final(self).remaining() == old(self).remaining().skip(2),
    {
        match self.next() {
            None => None,
            Some(x) => match self.next() {
                None => Some(x),
                Some(_) => None,
            },
        }
    }

    /// The sole element if the cursor yields exactly one, else `default`.
    /// Advances at most twice.
    fn single_or(&mut self, default: Self::Item) -> (r: Self::Item)
        requires
            old(self).wf(),
        ensures
            final(self).wf(),
            old(self).remaining().len() == 1 ==> r == old(self).remaining()[0],
            old(self).remaining().len() != 1 ==> r == default,
            old(self).remaining().len() <= 1 ==> final(self).remaining().len() == 0,
            old(self).remaining().len() >= 2
                ==> final(self).remaining() == old(self).remaining().skip(2),
    {
        match self.next() {
            None => default,
            Some(x) => match self.next() {
                None => x,
                Some(_) => default,
            },
        }
    }

    /// The sole element if the cursor yields exactly one, else the value
    /// computed by `f`.  The fallback is lazy: `f` is consumed only on the
    /// zero-or-many path, and being `FnOnce` it runs at most once; when
    /// exactly one element exists it is never run.  Advances at most twice.
    fn single_or_else<F: FnOnce() -> Self::Item>(&mut self, f: F) -> (r: Self::Item)
        requires
            old(self).wf(),
            call_requires(f, ()),
        ensures
            final(self).wf(),
            old(self).remaining().len() == 1 ==> r == old(self).remaining()[0],
            old(self).remaining().len() != 1 ==> call_ensures(f, (), r),
            old(self).remaining().len() <= 1 ==> final(self).remaining().len() == 0,
            old(self).remaining().len() >= 2
                ==> final(self).remaining() == old(self).remaining().skip(2),
    {
        match self.next() {
            None => f(),
            Some(x) => match self.next() {
                None => x,
                Some(_) => f(),
            },
        }
    }

    /// The sole element if the cursor yields exactly one, else the element
    /// type's default value.  Advances at most twice.
    fn single_or_default(&mut self) -> (r: Self::Item) where Self::Item: Default
        requires
            old(self).wf(),
        ensures
            final(self).wf(),
            old(self).remaining().len() == 1 ==> r == old(self).remaining()[0],
            old(self).remaining().len() != 1 ==> call_ensures(Self::Item::default, (), r),
            old(self).remaining().len() <= 1 ==> final(self).remaining().len() == 0,
            old(self).remaining().len() >= 2
                ==> final(self).remaining() == old(self).remaining().skip(2),
    {
        let default = Self::Item::default();
        self.single_or(default)
    }

    /// The first element if one exists, else `default`.  Advances once.
    fn first_or(&mut self, default: Self::Item) -> (r: Self::Item)
        requires
            old(self).wf(),
        ensures
            final(self).wf(),
            old(self).remaining().len() > 0 ==> r == old(self).remaining()[0]
                && final(self).remaining() == old(self).remaining().drop_first(),
            old(self).remaining().len() == 0 ==> r == default
                && final(self).remaining() == old(self).remaining(),
    {
        match self.next() {
            None => default,
            Some(x) => x,
        }
    }

    /// The first element if one exists, else the value computed by `f`.  The
    /// fallback is lazy: `f` is consumed only when the cursor is empty, and
    /// being `FnOnce` it runs at most once; when an element exists it is
    /// never run.  Advances once.
    fn first_or_else<F: FnOnce() -> Self::Item>(&mut self, f: F) -> (r: Self::Item)
        requires
            old(self).wf(),
            call_requires(f, ()),
        ensures
            final(self).wf(),
            old(self).remaining().len() > 0 ==> r == old(self).remaining()[0]
                && final(self).remaining() == old(self).remaining().drop_first(),
            old(self).remaining().len() == 0 ==> call_ensures(f, (), r)
                && final(self).remaining() == old(self).remaining(),
    {
        match self.next() {
            None => f(),
            Some(x) => x,
        }
    }

    /// The first element if one exists, else the element type's default
    /// value.  Advances once.
    fn first_or_default(&mut self) -> (r: Self::Item) where Self::Item: Default
        requires
            old(self).wf(),
        ensures
            final(self).wf(),
            old(self).remaining().len() > 0 ==> r == old(self).remaining()[0]
                && final(self).remaining() == old(self).remaining().drop_first(),
            old(self).remaining().len() == 0 ==> call_ensures(Self::Item::default, (), r)
                && final(self).remaining() == old(self).remaining(),
    {
        let default = Self::Item::default();
        self.first_or(default)
    }

    /// A one-shot tally: the number of elements the cursor still held, taken
    /// by consuming all of them.  Afterwards the cursor is exhausted, so a
    /// second tally returns zero; contrast the non-consuming peek-length
    /// query of a concrete cursor, which can be repeated.
    fn count(&mut self) -> (n: usize)
        requires
            old(self).wf(),
            old(self).remaining().len() <= usize::MAX,
        ensures
            final(self).wf(),
            n == old(self).remaining().len(),
            final(self).remaining().len() == 0,
    {
        let ghost orig = self.remaining();
        let mut n: usize = 0;
        loop
            invariant
                self.wf(),
                orig.len() <= usize::MAX,
                n + self.remaining().len() == orig.len(),
            ensures
                self.wf(),
                n == orig.len(),
                self.remaining().len() == 0,
            decreases self.remaining().len(),
        {
            match self.next() {
                None => {
                    break ;
                },
                Some(_) => {
                    n = n + 1;
                },
            }
        }
        n
    }
}

/// The sole element of the cursor, if it yields exactly one element; `None`
/// if the cursor was empty or yields two or more elements.
pub fn single_func<I: LinqIteratorExtensions>(mut iter: I) -> (r: Option<I::Item>)
    requires
        iter.wf(),
    ensures
        iter.remaining().len() == 1 ==> r == Some(iter.remaining()[0]),
        iter.remaining().len() != 1 ==> r is None,
{
    match iter.next() {
        None => None,
        Some(x) => match iter.next() {
            None => Some(x),
            Some(_) => None,
        },
    }
}

} // verus!
