//! Checkers of the laws that hand-written implementations of `PartialEq`,
//! `Eq`, `PartialOrd`, `Ord`, `Hash`, `Iterator`, `DoubleEndedIterator` and
//! `FusedIterator` must obey, on sample values that a test supplies.
//!
//! Each checker below runs the single-law checkers of [`invariants`] in a
//! fixed order, weaker capability first, and returns the first violation.
pub mod error;
pub mod hashing;
pub mod invariants;
pub mod iteration;
pub mod laws;

use vstd::laws_cmp::obeys_cmp;
use vstd::prelude::*;
use vstd::std_specs::cmp::{PartialEqSpec, PartialOrdSpec};
use vstd::std_specs::iter::IteratorSpec;
use std::hash::Hash;
use std::iter::FusedIterator;

use crate::error::{EqError, Error, HashError, IteratorError, OrdError, PartialEqError, PartialOrdError};
use crate::iteration::items_reflexive;
use crate::laws::{
    eq_answers, eq_verdict, follows_order_models, lemma_total_order_passes, ne_answers, ord_verdict,
    partial_eq_verdict, partial_ord_verdict,
};

verus! {

/// A result of partial equality as a result of any capability.
pub open spec fn from_partial_eq(r: Result<(), PartialEqError>) -> Result<(), Error> {
    match r {
        Ok(()) => Ok(()),
        Err(e) => Err(Error::PartialEq(e)),
    }
}

/// A result of strict equality as a result of any capability.
pub open spec fn from_eq(r: Result<(), EqError>) -> Result<(), Error> {
    match r {
        Ok(()) => Ok(()),
        Err(e) => Err(Error::Eq(e)),
    }
}

/// A result of partial order as a result of any capability.
pub open spec fn from_partial_ord(r: Result<(), PartialOrdError>) -> Result<(), Error> {
    match r {
        Ok(()) => Ok(()),
        Err(e) => Err(Error::PartiaOrd(e)),
    }
}

/// A result of total order as a result of any capability.
pub open spec fn from_ord(r: Result<(), OrdError>) -> Result<(), Error> {
    match r {
        Ok(()) => Ok(()),
        Err(e) => Err(Error::Ord(e)),
    }
}

/// Checks total order (and with it strict equality and partial order) on
/// three values: strict equality first, then partial order, then the
/// methods of total order; the first violation is returned.
///
/// A type whose methods follow their models, and whose models obey the laws
/// of a total order, passes on any three values.
pub fn ord<T>(a: &T, b: &T, c: &T) -> (r: Result<(), Error>)
    where
        T: Ord,
    ensures
        follows_order_models::<T>() ==> r == ord_verdict(a, b, c),
        obeys_cmp::<T>() ==> r is Ok,
        r is Err ==> !(r->Err_0 is Hash || r->Err_0 is Iterator),
        exists|r1: Result<(), Error>| #[trigger] call_ensures(eq::<T>, (a, b, c), r1) && if r1 is Err {
            r == r1
        } else {
            exists|r2: Result<(), Error>| #[trigger] call_ensures(partial_ord::<T>, (a, b, c), r2) && if r2 is Err {
                r == r2
            } else {
                exists|r3: Result<(), OrdError>|
                    #[trigger] call_ensures(invariants::ord_methods_consistency::<T>, (a, b, c), r3) && r
                        == from_ord(r3)
            }
        },
{
    proof {
        if obeys_cmp::<T>() {
            lemma_total_order_passes(a, b, c);
        }
    }
    let r1 = eq(a, b, c);
    assert(call_ensures(eq::<T>, (a, b, c), r1));
    if r1.is_err() {
        return r1;
    }
    let r2 = partial_ord(a, b, c);
    assert(call_ensures(partial_ord::<T>, (a, b, c), r2));
    if r2.is_err() {
        return r2;
    }
    let r3 = invariants::ord_methods_consistency(a, b, c);
    assert(call_ensures(invariants::ord_methods_consistency::<T>, (a, b, c), r3));
    match r3 {
        Err(e) => Err(Error::Ord(e)),
        Ok(()) => Ok(()),
    }
}

/// Checks partial order (and with it partial equality) on three values:
/// partial equality, then the methods' consistency, duality and
/// transitivity; the first violation is returned.
pub fn partial_ord<T>(a: &T, b: &T, c: &T) -> (r: Result<(), Error>)
    where
        T: PartialOrd,
    ensures
        T::obeys_eq_spec() && T::obeys_partial_cmp_spec() ==> r == partial_ord_verdict(a, b, c),
        r is Err ==> (r->Err_0 is PartialEq || r->Err_0 is PartiaOrd),
        exists|r1: Result<(), PartialEqError>| #[trigger] call_ensures(partial_eq::<T>, (a, b, c), r1) && if r1 is Err {
            r == from_partial_eq(r1)
        } else {
            exists|r2: Result<(), PartialOrdError>|
                #[trigger] call_ensures(invariants::partial_ord_methods_consistency::<T, T>, (a, b), r2) && if r2 is Err {
                    r == from_partial_ord(r2)
                } else {
                    exists|r3: Result<(), PartialOrdError>|
                        #[trigger] call_ensures(invariants::partial_ord_duality::<T, T>, (a, b), r3) && if r3 is Err {
                            r == from_partial_ord(r3)
                        } else {
                            exists|r4: Result<(), PartialOrdError>|
                                #[trigger] call_ensures(invariants::partial_ord_transitivity::<T, T, T>, (a, b, c), r4)
                                    && r == from_partial_ord(r4)
                        }
                }
        },
{
    let r1 = partial_eq(a, b, c);
    assert(call_ensures(partial_eq::<T>, (a, b, c), r1));
    if let Err(e) = r1 {
        return Err(Error::PartialEq(e));
    }
    let r2 = invariants::partial_ord_methods_consistency(a, b);
    assert(call_ensures(invariants::partial_ord_methods_consistency::<T, T>, (a, b), r2));
    if let Err(e) = r2 {
        return Err(Error::PartiaOrd(e));
    }
    let r3 = invariants::partial_ord_duality(a, b);
    assert(call_ensures(invariants::partial_ord_duality::<T, T>, (a, b), r3));
    if let Err(e) = r3 {
        return Err(Error::PartiaOrd(e));
    }
    let r4 = invariants::partial_ord_transitivity(a, b, c);
    assert(call_ensures(invariants::partial_ord_transitivity::<T, T, T>, (a, b, c), r4));
    if let Err(e) = r4 {
        return Err(Error::PartiaOrd(e));
    }
    Ok(())
}

/// Checks strict equality (and with it partial equality) on three values:
/// partial equality first, then reflexivity; the first violation is
/// returned.
///
/// The bound is `PartialEq` rather than `Eq`, so that a type can be shown
/// *not* to have a strict equality.
pub fn eq<T>(a: &T, b: &T, c: &T) -> (r: Result<(), Error>)
    where
        T: PartialEq<T>,
    ensures
        T::obeys_eq_spec() ==> r == eq_verdict(a, b, c),
        r is Err ==> (r->Err_0 is PartialEq || r->Err_0 is Eq),
        r == Err::<(), Error>(Error::Eq(EqError::BrokeReflexivity)) ==> ne_answers(a, a, true),
        exists|r1: Result<(), PartialEqError>| #[trigger] call_ensures(partial_eq::<T>, (a, b, c), r1) && if r1 is Err {
            r == from_partial_eq(r1)
        } else {
            exists|r2: Result<(), EqError>| #[trigger] call_ensures(invariants::eq_reflexivity::<T>, (a,), r2) && r
                == from_eq(r2)
        },
{
    let r1 = partial_eq(a, b, c);
    assert(call_ensures(partial_eq::<T>, (a, b, c), r1));
    if let Err(e) = r1 {
        return Err(Error::PartialEq(e));
    }
    let r2 = invariants::eq_reflexivity(a);
    assert(call_ensures(invariants::eq_reflexivity::<T>, (a,), r2));
    if let Err(e) = r2 {
        return Err(Error::Eq(e));
    }
    Ok(())
}

/// Checks partial equality on three values: the consistency of `eq` and
/// `ne`, then symmetry, then transitivity; the first violation is returned.
pub fn partial_eq<T>(a: &T, b: &T, c: &T) -> (r: Result<(), PartialEqError>)
    where
        T: PartialEq,
    ensures
        T::obeys_eq_spec() ==> r == partial_eq_verdict(a, b, c),
        r == Err::<(), PartialEqError>(PartialEqError::BadNe) ==> exists|e: bool, n: bool|
            eq_answers(a, b, e) && ne_answers(a, b, n) && e == n,
        r == Err::<(), PartialEqError>(PartialEqError::BrokeSymmetry) ==> exists|x: bool, y: bool|
            eq_answers(a, b, x) && eq_answers(b, a, y) && x != y,
        r == Err::<(), PartialEqError>(PartialEqError::BrokeTransitivity) ==> eq_answers(a, b, true)
            && eq_answers(b, c, true) && ne_answers(a, c, true),
        exists|r1: Result<(), PartialEqError>|
            #[trigger] call_ensures(invariants::partial_eq_methods_consistency::<T, T>, (a, b), r1) && if r1 is Err {
                r == r1
            } else {
                exists|r2: Result<(), PartialEqError>|
                    #[trigger] call_ensures(invariants::partial_eq_symmetry::<T, T>, (a, b), r2) && if r2 is Err {
                        r == r2
                    } else {
                        call_ensures(invariants::partial_eq_transitivity::<T, T, T>, (a, b, c), r)
                    }
            },
{
    let r1 = invariants::partial_eq_methods_consistency(a, b);
    assert(call_ensures(invariants::partial_eq_methods_consistency::<T, T>, (a, b), r1));
    if r1.is_err() {
        return r1;
    }
    let r2 = invariants::partial_eq_symmetry(a, b);
    assert(call_ensures(invariants::partial_eq_symmetry::<T, T>, (a, b), r2));
    if r2.is_err() {
        return r2;
    }
    invariants::partial_eq_transitivity(a, b, c)
}

/// Checks hashing against strict equality on two values: first that the
/// values are equal exactly when their recorded hash bytes are identical,
/// then that for unequal values neither byte sequence is a prefix of the
/// other.
pub fn hash<K>(a: &K, b: &K) -> (r: Result<(), HashError>)
    where
        K: Hash + Eq + ?Sized,
    ensures
        exists|first: Result<(), HashError>|
            #[trigger] call_ensures(invariants::hash_consistency_with_eq::<K>, (a, b), first) && (first is Err
                ==> r == first) && (first is Ok ==> call_ensures(invariants::hash_prefix_collision::<K>, (a, b), r)),
        r == Err::<(), HashError>(HashError::PrefixCollision) ==> call_ensures(<K as PartialEq>::ne, (a, b), true),
{
    let first = invariants::hash_consistency_with_eq(a, b);
    assert(call_ensures(invariants::hash_consistency_with_eq::<K>, (a, b), first));
    if first.is_err() {
        return first;
    }
    invariants::hash_prefix_collision(a, b)
}

/// Checks `size_hint`, `count` and `last` against what `next` yields, in
/// that order, each on an independent clone (the last on `iter` itself).
/// `iter` must be finite.
pub fn iterator<I>(iter: I) -> (r: Result<(), IteratorError>)
    where
        I: Iterator + Clone,
        I::Item: PartialEq,
    ensures
        r is Err ==> (r->Err_0 is BadSizeHint || r->Err_0 is BadCount || r->Err_0 is BadLast),
        exists|c1: I, first: Result<(), IteratorError>|
            #![trigger cloned(iter, c1), call_ensures(invariants::iterator_size_hint::<I>, (c1,), first)]
            cloned(iter, c1) && call_ensures(invariants::iterator_size_hint::<I>, (c1,), first) && (first is Err
                ==> r == first) && (first is Ok ==> exists|c2: I, second: Result<(), IteratorError>|
                #![trigger cloned(iter, c2), call_ensures(invariants::iterator_count::<I>, (c2,), second)]
                cloned(iter, c2) && call_ensures(invariants::iterator_count::<I>, (c2,), second) && (second is Err
                    ==> r == second) && (second is Ok ==> call_ensures(invariants::iterator_last::<I>, (iter,), r))),
{
    let c1 = iter.clone();
    assert(cloned(iter, c1));
    let first = invariants::iterator_size_hint(c1);
    assert(call_ensures(invariants::iterator_size_hint::<I>, (c1,), first));
    if first.is_err() {
        return first;
    }
    let c2 = iter.clone();
    assert(cloned(iter, c2));
    let second = invariants::iterator_count(c2);
    assert(call_ensures(invariants::iterator_count::<I>, (c2,), second));
    if second.is_err() {
        return second;
    }
    invariants::iterator_last(iter)
}

/// Checks double-ended iteration: first iteration, on an independent
/// clone, then `next_back` against `next`. `iter` must be finite.
///
/// An iterator that obeys the laws of `DoubleEndedIterator`, whose clones
/// yield what it yields and whose items are equal to themselves is never
/// reported for `next_back`, whatever the random interleaving.
pub fn double_ended_iterator<I>(iter: I) -> (r: Result<(), IteratorError>)
    where
        I: DoubleEndedIterator + Clone,
        I::Item: PartialEq,
    ensures
        r is Err ==> (r->Err_0 is BadSizeHint || r->Err_0 is BadCount || r->Err_0 is BadLast || r->Err_0 is BadNextBack),
        exists|c: I, first: Result<(), IteratorError>|
            #![trigger cloned(iter, c), call_ensures(iterator::<I>, (c,), first)]
            cloned(iter, c) && call_ensures(iterator::<I>, (c,), first) && (first is Err ==> r == first) && (first is Ok
                ==> call_ensures(invariants::double_ended_iterator_next_back::<I>, (iter,), r)),
        iter.obeys_prophetic_iter_laws() && iter.remaining().len() < usize::MAX - 1
            && (forall|c: I| #[trigger] cloned(iter, c) ==> c.obeys_prophetic_iter_laws() && c.remaining() == iter.remaining())
            && <I::Item as PartialEqSpec>::obeys_eq_spec() && items_reflexive(iter.remaining())
            ==> r != Err::<(), IteratorError>(IteratorError::BadNextBack),
{
    let c = iter.clone();
    assert(cloned(iter, c));
    let first = iterator(c);
    assert(call_ensures(iterator::<I>, (c,), first));
    if first.is_err() {
        return first;
    }
    invariants::double_ended_iterator_next_back(iter)
}

/// Checks fused iteration: first iteration, on an independent clone, then
/// that `next` keeps returning `None`. `iter` must be finite.
///
/// An iterator that obeys the laws of `Iterator` is never reported for
/// yielding an item after exhaustion.
pub fn fused_iterator<I>(iter: I) -> (r: Result<(), IteratorError>)
    where
        I: FusedIterator + Clone,
        I::Item: PartialEq,
    ensures
        r is Err ==> (r->Err_0 is BadSizeHint || r->Err_0 is BadCount || r->Err_0 is BadLast
            || r->Err_0 is FusedIteratorReturnedSomeAfterExhaustion),
        exists|c: I, first: Result<(), IteratorError>|
            #![trigger cloned(iter, c), call_ensures(iterator::<I>, (c,), first)]
            cloned(iter, c) && call_ensures(iterator::<I>, (c,), first) && (first is Err ==> r == first) && (first is Ok
                ==> call_ensures(invariants::fused_iterator_none_forever::<I>, (iter,), r)),
        iter.obeys_prophetic_iter_laws() && iter.remaining().len() < usize::MAX - 1
            ==> r != Err::<(), IteratorError>(IteratorError::FusedIteratorReturnedSomeAfterExhaustion),
{
    let c = iter.clone();
    assert(cloned(iter, c));
    let first = iterator(c);
    assert(call_ensures(iterator::<I>, (c,), first));
    if first.is_err() {
        return first;
    }
    invariants::fused_iterator_none_forever(iter)
}

/// Checking partial equality twice on the same values gives the same
/// result, for a type whose methods follow their models.
pub proof fn lemma_partial_eq_repeatable<T: PartialEq>(
    a: &T,
    b: &T,
    c: &T,
    r1: Result<(), PartialEqError>,
    r2: Result<(), PartialEqError>,
)
    requires
        T::obeys_eq_spec(),
        call_ensures(partial_eq::<T>, (a, b, c), r1),
        call_ensures(partial_eq::<T>, (a, b, c), r2),
    ensures
        r1 == r2,
{
}

/// Checking strict equality twice on the same values gives the same
/// result, for a type whose methods follow their models.
pub proof fn lemma_eq_repeatable<T: PartialEq>(a: &T, b: &T, c: &T, r1: Result<(), Error>, r2: Result<(), Error>)
    requires
        T::obeys_eq_spec(),
        call_ensures(eq::<T>, (a, b, c), r1),
        call_ensures(eq::<T>, (a, b, c), r2),
    ensures
        r1 == r2,
{
}

/// Checking partial order twice on the same values gives the same result,
/// for a type whose methods follow their models.
pub proof fn lemma_partial_ord_repeatable<T: PartialOrd>(
    a: &T,
    b: &T,
    c: &T,
    r1: Result<(), Error>,
    r2: Result<(), Error>,
)
    requires
        T::obeys_eq_spec(),
        T::obeys_partial_cmp_spec(),
        call_ensures(partial_ord::<T>, (a, b, c), r1),
        call_ensures(partial_ord::<T>, (a, b, c), r2),
    ensures
        r1 == r2,
{
}

/// Checking total order twice on the same values gives the same result,
/// for a type whose methods follow their models.
pub proof fn lemma_ord_repeatable<T: Ord>(a: &T, b: &T, c: &T, r1: Result<(), Error>, r2: Result<(), Error>)
    requires
        follows_order_models::<T>(),
        call_ensures(ord::<T>, (a, b, c), r1),
        call_ensures(ord::<T>, (a, b, c), r2),
    ensures
        r1 == r2,
{
}

} // verus!
