//! Driving iterators: exhausting them through `next`, interleaving `next`
//! and `next_back`, and judging what their own `size_hint`, `count` and
//! `last` answered against what `next` yielded.
//!
//! The models are those that vstd gives `Iterator` and
//! `DoubleEndedIterator`: `remaining()` is the sequence of items that an
//! iterator obeying its laws will yield.
use vstd::prelude::*;
use vstd::std_specs::cmp::PartialEqSpec;
use vstd::std_specs::iter::IteratorSpec;

use crate::error::IteratorError;

verus! {

/// Two sequences of items agree item by item under the items' equality.
pub open spec fn items_agree<T: PartialEq>(x: Seq<T>, y: Seq<T>) -> bool {
    &&& x.len() == y.len()
    &&& forall|i: int| 0 <= i < x.len() ==> #[trigger] x[i].eq_spec(&y[i])
}

/// Every item of `s` is equal to itself.
pub open spec fn items_reflexive<T: PartialEq>(s: Seq<T>) -> bool {
    forall|i: int| 0 <= i < s.len() ==> #[trigger] s[i].eq_spec(&s[i])
}

/// A size hint `(lower, upper)` admits `count` items.
pub open spec fn size_hint_admits(lower: usize, upper: Option<usize>, count: nat) -> bool {
    &&& lower <= count
    &&& upper matches Some(u) ==> count <= u
}

/// `last` is the last of `items`, or absent exactly when there is none.
pub open spec fn last_agrees<T: PartialEq>(last: Option<T>, items: Seq<T>) -> bool {
    match last {
        None => items.len() == 0,
        Some(x) => items.len() > 0 && x.eq_spec(&items.last()),
    }
}

/// Relies on `Iterator::size_hint` of `I`, which the implementation under
/// test may override; nothing is stated of what it answers.
#[verifier::external_body]
pub(crate) fn size_hint_of<I: Iterator>(iter: &I) -> (usize, Option<usize>) {
    iter.size_hint()
}

/// Relies on `Iterator::count` of `I`, which the implementation under test
/// may override; nothing is stated of what it answers.
#[verifier::external_body]
pub(crate) fn count_of<I: Iterator>(iter: I) -> usize {
    iter.count()
}

/// Relies on `Iterator::last` of `I`, which the implementation under test
/// may override; nothing is stated of what it answers.
#[verifier::external_body]
pub(crate) fn last_of<I: Iterator>(iter: I) -> Option<I::Item> {
    iter.last()
}

/// Relies on `rand::random::<bool>`, drawn from the thread's generator; any
/// value may come back.
#[verifier::external_body]
fn random_bool() -> bool {
    rand::random::<bool>()
}

/// `n` random choices.
pub(crate) fn random_choices(n: usize) -> (v: Vec<bool>)
    ensures
        v@.len() == n,
{
    let mut v: Vec<bool> = Vec::new();
    while v.len() < n
        invariant
            v@.len() <= n,
        decreases n - v@.len(),
    {
        v.push(random_bool());
    }
    v
}

/// Polls `iter` through `next` until it returns `None`, and returns the
/// items it yielded. It stops short of `usize::MAX - 1` items, a bound that
/// no finite iterator in memory reaches.
pub(crate) fn collect_items<I: Iterator>(iter: I) -> (v: Vec<I::Item>)
    ensures
        v@.len() <= usize::MAX - 1,
        iter.obeys_prophetic_iter_laws() && iter.remaining().len() < usize::MAX - 1 ==> v@ == iter.remaining(),
{
    let mut it = iter;
    let mut v: Vec<I::Item> = Vec::new();
    let mut n: usize = 0;
    while n < usize::MAX - 1
        invariant
            n == v@.len(),
            n <= usize::MAX - 1,
            it.obeys_prophetic_iter_laws() == iter.obeys_prophetic_iter_laws(),
            iter.obeys_prophetic_iter_laws() ==> v@ + it.remaining() == iter.remaining(),
        decreases usize::MAX - 1 - n,
    {
        match it.next() {
            Some(x) => {
                v.push(x);
                n = n + 1;
            },
            None => {
                proof {
                    if iter.obeys_prophetic_iter_laws() {
                        assert(v@ + it.remaining() =~= v@);
                    }
                }
                return v;
            },
        }
    }
    v
}

/// Polls `iter` through `next` until it returns `None`, and returns how many
/// items it yielded (stopping short of `usize::MAX - 1`, as
/// [`collect_items`] does).
pub(crate) fn exhaust<I: Iterator>(iter: &mut I) -> (n: usize)
    ensures
        n <= usize::MAX - 1,
        (*old(iter)).obeys_prophetic_iter_laws() == (*final(iter)).obeys_prophetic_iter_laws(),
        (*old(iter)).obeys_prophetic_iter_laws() && (*old(iter)).remaining().len() < usize::MAX - 1 ==>
            n == (*old(iter)).remaining().len() && (*final(iter)).remaining().len() == 0,
{
    let mut n: usize = 0;
    while n < usize::MAX - 1
        invariant
            n <= usize::MAX - 1,
            (*iter).obeys_prophetic_iter_laws() == (*old(iter)).obeys_prophetic_iter_laws(),
            (*old(iter)).obeys_prophetic_iter_laws() ==> n + (*iter).remaining().len() == (*old(iter)).remaining().len(),
        decreases usize::MAX - 1 - n,
    {
        match iter.next() {
            Some(_) => {
                n = n + 1;
            },
            None => {
                return n;
            },
        }
    }
    n
}

/// Drives `iter` until it returns `None`, taking step `k` from the back
/// where `fronts[k]` is false and from the front otherwise (also past the
/// end of `fronts`). Returns the items taken from the front and those taken
/// from the back, each in the order taken. It stops once it has taken more
/// than `limit` items.
pub(crate) fn take_interleaved<I: DoubleEndedIterator>(iter: I, fronts: &[bool], limit: usize) -> (r: (
    Vec<I::Item>,
    Vec<I::Item>,
))
    requires
        limit < usize::MAX,
    ensures
        iter.obeys_prophetic_iter_laws() && iter.remaining().len() <= limit ==> r.0@ + r.1@.reverse()
            == iter.remaining(),
{
    let mut it = iter;
    let mut front: Vec<I::Item> = Vec::new();
    let mut back: Vec<I::Item> = Vec::new();
    let mut k: usize = 0;
    let mut done = false;
    while !done && k <= limit
        invariant
            k == front@.len() + back@.len(),
            k <= limit + 1,
            limit < usize::MAX,
            it.obeys_prophetic_iter_laws() == iter.obeys_prophetic_iter_laws(),
            iter.obeys_prophetic_iter_laws() ==> front@ + it.remaining() + back@.reverse() == iter.remaining(),
            iter.obeys_prophetic_iter_laws() && done ==> it.remaining().len() == 0,
        decreases limit + 1 - k, if done { 0int } else { 1int },
    {
        let take_front = if k < fronts.len() {
            fronts[k]
        } else {
            true
        };
        if take_front {
            match it.next() {
                Some(x) => {
                    proof {
                        if iter.obeys_prophetic_iter_laws() {
                            assert(front@.push(x) + it.remaining() + back@.reverse() =~= iter.remaining());
                        }
                    }
                    front.push(x);
                    k = k + 1;
                },
                None => {
                    done = true;
                },
            }
        } else {
            match it.next_back() {
                Some(x) => {
                    proof {
                        if iter.obeys_prophetic_iter_laws() {
                            assert(front@ + it.remaining() + back@.push(x).reverse() =~= iter.remaining());
                        }
                    }
                    back.push(x);
                    k = k + 1;
                },
                None => {
                    done = true;
                },
            }
        }
    }
    proof {
        if iter.obeys_prophetic_iter_laws() {
            assert(iter.remaining().len() <= limit ==> done);
            assert(done ==> front@ + it.remaining() + back@.reverse() =~= front@ + back@.reverse());
        }
    }
    (front, back)
}

/// Judges a size hint against the number of items that `next` yielded.
pub(crate) fn size_hint_verdict(hint: (usize, Option<usize>), count: usize) -> (r: Result<(), IteratorError>)
    ensures
        r == (if size_hint_admits(hint.0, hint.1, count as nat) {
            Ok(())
        } else {
            Err(IteratorError::BadSizeHint)
        }),
{
    if hint.0 > count {
        return Err(IteratorError::BadSizeHint);
    }
    match hint.1 {
        Some(upper) => {
            if upper < count {
                return Err(IteratorError::BadSizeHint);
            }
        },
        None => {},
    }
    Ok(())
}

/// Judges what `last` answered against the items that `next` yielded.
pub(crate) fn last_verdict<T: PartialEq>(last: &Option<T>, items: &[T]) -> (r: Result<(), IteratorError>)
    ensures
        T::obeys_eq_spec() ==> r == (if last_agrees(*last, items@) {
            Ok(())
        } else {
            Err(IteratorError::BadLast)
        }),
        r is Err ==> r == Err::<(), IteratorError>(IteratorError::BadLast),
{
    let agree = match last {
        None => items.len() == 0,
        Some(x) => items.len() > 0 && x.eq(&items[items.len() - 1]),
    };
    if !agree {
        return Err(IteratorError::BadLast);
    }
    Ok(())
}

} // verus!
