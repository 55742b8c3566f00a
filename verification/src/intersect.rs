//! A cursor adapter over the set intersection of two cursors.

use crate::linq_adapters::LinqIteratorExtensions;
use vstd::laws_eq::obeys_concrete_eq;
use vstd::prelude::*;
use vstd::std_specs::cmp::PartialEqSpec;

verus! {

/// The elements of `a` that lie in the pool, in `a`'s order, each value at
/// most once: a value leaves the pool the first time it is yielded, so later
/// repeats of it in `a` are dropped.
pub open spec fn intersect_seq<T>(a: Seq<T>, pool: Set<T>) -> Seq<T>
    decreases a.len(),
{
    if a.len() == 0 {
        Seq::empty()
    } else if pool.contains(a[0]) {
        seq![a[0]] + intersect_seq(a.drop_first(), pool.remove(a[0]))
    } else {
        intersect_seq(a.drop_first(), pool)
    }
}

/// `obeys_concrete_eq` spelled out: the executable `==` of `T` agrees with
/// specification equality.
proof fn lemma_concrete_eq_unfold<T: PartialEq>()
    requires
        obeys_concrete_eq::<T>(),
    ensures
        T::obeys_eq_spec(),
        forall|x: T, y: T| #[trigger] x.eq_spec(&y) <==> x == y,
{
    reveal(vstd::laws_eq::obeys_concrete_eq);
}

/// Whether `v` holds an element equal to `x`.
fn vec_contains<T: PartialEq>(v: &Vec<T>, x: &T) -> (found: bool)
    requires
        obeys_concrete_eq::<T>(),
    ensures
        found == v@.contains(*x),
{
    proof {
        lemma_concrete_eq_unfold::<T>();
    }
    let mut i: usize = 0;
    while i < v.len()
        invariant
            obeys_concrete_eq::<T>(),
            i <= v@.len(),
            forall|j: int| 0 <= j < i ==> v@[j] != *x,
        decreases v@.len() - i,
    {
        proof {
            lemma_concrete_eq_unfold::<T>();
        }
        if x.eq(&v[i]) {
            proof {
                assert(v@[i as int] == *x);
            }
            return true;
        }
        i = i + 1;
    }
    proof {
        assert(!v@.contains(*x));
    }
    false
}

/// Remove the one element of `v` that equals `x`.
fn vec_remove_value<T: PartialEq>(v: &mut Vec<T>, x: &T)
    requires
        obeys_concrete_eq::<T>(),
        old(v)@.no_duplicates(),
        old(v)@.contains(*x),
    ensures
        final(v)@.no_duplicates(),
        final(v)@.to_set() == old(v)@.to_set().remove(*x),
{
    proof {
        lemma_concrete_eq_unfold::<T>();
    }
    let ghost orig = v@;
    let mut i: usize = 0;
    while i < v.len()
        invariant
            obeys_concrete_eq::<T>(),
            v@ == orig,
            orig == old(v)@,
            orig.no_duplicates(),
            i <= orig.len(),
            orig.contains(*x),
            forall|j: int| 0 <= j < i ==> orig[j] != *x,
        decreases orig.len() - i,
    {
        proof {
            lemma_concrete_eq_unfold::<T>();
        }
        if x.eq(&v[i]) {
            v.remove(i);
            proof {
                lemma_removed_unique_value(orig, i as int, *x);
            }
            return ;
        }
        i = i + 1;
    }
    proof {
        let k = choose|k: int| 0 <= k < orig.len() && orig[k] == *x;
        assert(false);
    }
}

/// Removing the only occurrence of a value from a duplicate-free sequence
/// removes exactly that value from the sequence's set of elements.
proof fn lemma_removed_unique_value<T>(s: Seq<T>, i: int, x: T)
    requires
        s.no_duplicates(),
        0 <= i < s.len(),
        s[i] == x,
    ensures
        s.remove(i).no_duplicates(),
        s.remove(i).to_set() == s.to_set().remove(x),
{
    s.remove_ensures(i);
    let r = s.remove(i);
    assert forall|y: T| r.to_set().contains(y) implies s.to_set().remove(x).contains(y) by {
        let j = choose|j: int| 0 <= j < r.len() && r[j] == y;
        if j < i {
            assert(s[j] == y);
        } else {
            assert(s[j + 1] == y);
        }
    }
    assert forall|y: T| s.to_set().remove(x).contains(y) implies r.to_set().contains(y) by {
        let j = choose|j: int| 0 <= j < s.len() && s[j] == y;
        if j < i {
            assert(r[j] == y);
        } else {
            assert(j != i);
            assert(r[j - 1] == y);
        }
    }
    assert(r.to_set() =~= s.to_set().remove(x));
}

/// A cursor over the set intersection of the sequences of two cursors: the
/// elements of `a` that `b` also yields, in `a`'s order, without repeats.
///
/// On construction `b` is drained into a pool of its distinct values;
/// advancing then filters `a` against that pool, taking each yielded value
/// out of it.
pub struct Intersect<A, B> where A: LinqIteratorExtensions, B: LinqIteratorExtensions {
    a: A,
    b: B,
    items: Vec<A::Item>,
}

/// Build the cursor over the set intersection of `a` and `b`: the elements
/// `a` yields that `b` also yields, in `a`'s order, each distinct value at
/// most once.  Drains `b` into the pool of its distinct values at once; `a`
/// is consumed as the intersection cursor advances.
pub fn intersect<A, B>(a: A, b: B) -> (r: Intersect<A, B>) where
    A: LinqIteratorExtensions,
    B: LinqIteratorExtensions<Item = A::Item>,
    A::Item: Eq,

    requires
        a.wf(),
        b.wf(),
        obeys_concrete_eq::<A::Item>(),
    ensures
        r.wf(),
        r.remaining() == intersect_seq(a.remaining(), b.remaining().to_set()),
{
    let mut b = b;
    let ghost borig = b.remaining();
    let mut items: Vec<A::Item> = Vec::new();
    let ghost mut drained: Seq<A::Item> = Seq::empty();
    loop
        invariant
            b.wf(),
            obeys_concrete_eq::<A::Item>(),
            items@.no_duplicates(),
            items@.to_set() == drained.to_set(),
            drained + b.remaining() == borig,
        ensures
            items@.no_duplicates(),
            items@.to_set() == borig.to_set(),
        decreases b.remaining().len(),
    {
        match b.next() {
            None => {
                proof {
                    assert(drained =~= borig);
                }
                break ;
            },
            Some(x) => {
                let dup = vec_contains(&items, &x);
                proof {
                    broadcast use vstd::set::group_set_axioms;

                    drained.lemma_push_to_set_commute(x);
                    items@.lemma_push_to_set_commute(x);
                    assert(drained.push(x) + b.remaining() =~= borig);
                    if items@.contains(x) {
                        assert(drained.to_set().contains(x));
                        assert(drained.push(x).to_set() =~= drained.to_set());
                    } else {
                        assert(items@.push(x).to_set() =~= items@.to_set().insert(x));
                        assert(drained.push(x).to_set() =~= drained.to_set().insert(x));
                        lemma_no_duplicates_push(items@, x);
                    }
                }
                if !dup {
                    items.push(x);
                }
                proof {
                    drained = drained.push(x);
                }
            },
        }
    }
    Intersect { a, b, items }
}

/// Appending a value that a duplicate-free sequence does not contain keeps
/// it duplicate-free.
proof fn lemma_no_duplicates_push<T>(s: Seq<T>, x: T)
    requires
        s.no_duplicates(),
        !s.contains(x),
    ensures
        s.push(x).no_duplicates(),
{
    let p = s.push(x);
    assert forall|i: int, j: int|
        0 <= i < p.len() && 0 <= j < p.len() && i != j implies p[i] != p[j] by {
        if i < s.len() && j < s.len() {
            assert(s[i] == p[i] && s[j] == p[j]);
        } else if i < s.len() {
            assert(s[i] == p[i] && p[j] == x);
        } else {
            assert(p[i] == x && s[j] == p[j]);
        }
    }
}

impl<A, B> LinqIteratorExtensions for Intersect<A, B> where
    A: LinqIteratorExtensions,
    B: LinqIteratorExtensions<Item = A::Item>,
    A::Item: Eq,
{
    type Item = A::Item;

    closed spec fn wf(&self) -> bool {
        &&& self.a.wf()
        &&& obeys_concrete_eq::<A::Item>()
        &&& self.items@.no_duplicates()
    }

    closed spec fn remaining(&self) -> Seq<A::Item> {
        intersect_seq(self.a.remaining(), self.items@.to_set())
    }

    fn next(&mut self) -> (r: Option<A::Item>) {
        let ghost orig = self.remaining();
        loop
            invariant
                self.wf(),
                self.remaining() == orig,
                orig == old(self).remaining(),
            decreases self.a.remaining().len(),
        {
            let ghost a_rem = self.a.remaining();
            let ghost pool = self.items@.to_set();
            match self.a.next() {
                None => {
                    proof {
                        assert(orig =~= Seq::<A::Item>::empty());
                    }
                    return None;
                },
                Some(x) => {
                    if vec_contains(&self.items, &x) {
                        proof {
                            assert(pool.contains(a_rem[0]));
                            assert(orig == seq![x] + intersect_seq(
                                a_rem.drop_first(),
                                pool.remove(x),
                            ));
                            assert(orig[0] == x);
                            assert(orig.drop_first() =~= intersect_seq(
                                a_rem.drop_first(),
                                pool.remove(x),
                            ));
                        }
                        vec_remove_value(&mut self.items, &x);
                        return Some(x);
                    } else {
                        proof {
                            assert(!pool.contains(a_rem[0]));
                            assert(self.remaining() == orig);
                        }
                    }
                },
            }
        }
    }
}

} // verus!
