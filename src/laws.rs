//! The laws, stated over the models that vstd gives `PartialEq`,
//! `PartialOrd` and `Ord` (`eq_spec`, `partial_cmp_spec`, `cmp_spec`), and
//! what each checker must report when a type's methods follow those models.
use vstd::laws_cmp::{
    obeys_cmp, obeys_cmp_ord, obeys_cmp_partial_ord, obeys_partial_cmp_spec_properties,
};
use vstd::laws_eq::obeys_eq_spec_properties;
use vstd::prelude::*;
use vstd::std_specs::cmp::{OrdSpec, PartialEqSpec, PartialOrdIs, PartialOrdSpec};
use std::cmp::Ordering;

use crate::error::{EqError, Error, OrdError, PartialEqError, PartialOrdError};

verus! {

// What a method may answer: the answers that an implementation can give on
// the arguments, whether or not it follows its model.

/// `eq` may answer `r` on `(a, b)`.
pub open spec fn eq_answers<A: PartialEq<B> + ?Sized, B: ?Sized>(a: &A, b: &B, r: bool) -> bool {
    call_ensures(<A as PartialEq<B>>::eq, (a, b), r)
}

/// `ne` may answer `r` on `(a, b)`.
pub open spec fn ne_answers<A: PartialEq<B> + ?Sized, B: ?Sized>(a: &A, b: &B, r: bool) -> bool {
    call_ensures(<A as PartialEq<B>>::ne, (a, b), r)
}

/// `partial_cmp` may answer `r` on `(a, b)`.
pub open spec fn partial_cmp_answers<A: PartialOrd<B>, B>(a: &A, b: &B, r: Option<Ordering>) -> bool {
    call_ensures(<A as PartialOrd<B>>::partial_cmp, (a, b), r)
}

/// `lt` may answer `r` on `(a, b)`.
pub open spec fn lt_answers<A: PartialOrd<B>, B>(a: &A, b: &B, r: bool) -> bool {
    call_ensures(<A as PartialOrd<B>>::lt, (a, b), r)
}

/// `le` may answer `r` on `(a, b)`.
pub open spec fn le_answers<A: PartialOrd<B>, B>(a: &A, b: &B, r: bool) -> bool {
    call_ensures(<A as PartialOrd<B>>::le, (a, b), r)
}

/// `gt` may answer `r` on `(a, b)`.
pub open spec fn gt_answers<A: PartialOrd<B>, B>(a: &A, b: &B, r: bool) -> bool {
    call_ensures(<A as PartialOrd<B>>::gt, (a, b), r)
}

/// `ge` may answer `r` on `(a, b)`.
pub open spec fn ge_answers<A: PartialOrd<B>, B>(a: &A, b: &B, r: bool) -> bool {
    call_ensures(<A as PartialOrd<B>>::ge, (a, b), r)
}

/// `cmp` may answer `r` on `(a, b)`.
pub open spec fn cmp_answers<T: Ord>(a: &T, b: &T, r: Ordering) -> bool {
    call_ensures(<T as Ord>::cmp, (a, b), r)
}

/// `max` on references may answer `r` on `(a, b)`.
pub open spec fn max_answers<'a, T: Ord>(a: &'a T, b: &'a T, r: &'a T) -> bool {
    call_ensures(<&'a T as Ord>::max, (a, b), r)
}

/// `min` on references may answer `r` on `(a, b)`.
pub open spec fn min_answers<'a, T: Ord>(a: &'a T, b: &'a T, r: &'a T) -> bool {
    call_ensures(<&'a T as Ord>::min, (a, b), r)
}

/// `v` clamped between `lo` and `hi`, from the answers `below` of `v < lo`
/// and `above` of `v > hi`.
pub open spec fn clamp_of<'a, T>(v: &'a T, lo: &'a T, hi: &'a T, below: bool, above: bool) -> &'a T {
    if below { lo } else if above { hi } else { v }
}

/// The answers `below` of `a < lo`, `above` of `a > hi` (asked only when
/// `a < lo` is false), `under` of `k < lo` and `over` of `k > hi` (asked
/// only when `k < lo` is false), where `k` is `a` clamped by the first two.
pub open spec fn clamp_observed<'a, T: Ord>(
    a: &'a T,
    lo: &'a T,
    hi: &'a T,
    below: bool,
    above: bool,
    under: bool,
    over: bool,
) -> bool {
    let k = clamp_of(a, lo, hi, below, above);
    &&& lt_answers(a, lo, below)
    &&& (below || gt_answers(a, hi, above))
    &&& lt_answers(k, lo, under)
    &&& (under || gt_answers(k, hi, over))
}

/// The comparisons may place `a`, clamped between `lo` and `hi`, within
/// them (`within`) or outside them (`!within`).
pub open spec fn clamp_answers<'a, T: Ord>(a: &'a T, lo: &'a T, hi: &'a T, within: bool) -> bool {
    exists|below: bool, above: bool, under: bool, over: bool|
        #[trigger] clamp_observed(a, lo, hi, below, above, under, over) && within == (!under && !over)
}

// The laws at given values, over the models.

/// `a == b` exactly when `b == a`.
pub open spec fn symmetric_at<A: PartialEq<B>, B: PartialEq<A>>(a: &A, b: &B) -> bool {
    a.eq_spec(b) == b.eq_spec(a)
}

/// `a == b` and `b == c` imply `a == c`.
pub open spec fn eq_transitive_at<A, B, C>(a: &A, b: &B, c: &C) -> bool
    where
        A: PartialEq<B> + PartialEq<C>,
        B: PartialEq<C>,
{
    <A as PartialEqSpec<B>>::eq_spec(a, b) && b.eq_spec(c) ==> <A as PartialEqSpec<C>>::eq_spec(a, c)
}

/// `a == a`.
pub open spec fn reflexive_at<A: PartialEq>(a: &A) -> bool {
    a.eq_spec(a)
}

/// `a == b` exactly when `partial_cmp` says `Equal`.
pub open spec fn partial_cmp_agrees_at<A: PartialOrd<B>, B>(a: &A, b: &B) -> bool {
    a.eq_spec(b) == (a.partial_cmp_spec(b) == Some(Ordering::Equal))
}

/// Duality: `a < b` exactly when `b > a`, or `a > b` exactly when `b < a`
/// (one of the two suffices, so that a comparison defined on one side
/// only is not taken for a violation).
pub open spec fn dual_at<A: PartialOrd<B>, B: PartialOrd<A>>(a: &A, b: &B) -> bool {
    (a.is_lt(b) == b.is_gt(a)) || (a.is_gt(b) == b.is_lt(a))
}

/// `a < b < c` implies `a < c`, and `a > b > c` implies `a > c`.
pub open spec fn order_transitive_at<A, B, C>(a: &A, b: &B, c: &C) -> bool
    where
        A: PartialOrd<B> + PartialOrd<C>,
        B: PartialOrd<C>,
{
    &&& (<A as PartialOrdIs<B>>::is_lt(a, b) && b.is_lt(c) ==> <A as PartialOrdIs<C>>::is_lt(a, c))
    &&& (<A as PartialOrdIs<B>>::is_gt(a, b) && b.is_gt(c) ==> <A as PartialOrdIs<C>>::is_gt(a, c))
}

/// `cmp` agrees with `partial_cmp`.
pub open spec fn cmp_agrees_at<T: Ord>(a: &T, b: &T) -> bool {
    a.partial_cmp_spec(b) == Some(a.cmp_spec(b))
}

/// What `max(a, b)` must be: `b` unless `a` is greater.
pub open spec fn expected_max<'a, T: Ord>(a: &'a T, b: &'a T) -> &'a T {
    if a.cmp_spec(b) == Ordering::Greater { a } else { b }
}

/// What `min(a, b)` must be: `a` unless `a` is greater.
pub open spec fn expected_min<'a, T: Ord>(a: &'a T, b: &'a T) -> &'a T {
    if a.cmp_spec(b) == Ordering::Greater { b } else { a }
}

/// What std's `max` on references returns, by its model.
pub open spec fn model_max<'a, T: Ord>(a: &'a T, b: &'a T) -> &'a T {
    if b.cmp_spec(a) == Ordering::Less { a } else { b }
}

/// What std's `min` on references returns, by its model.
pub open spec fn model_min<'a, T: Ord>(a: &'a T, b: &'a T) -> &'a T {
    if b.cmp_spec(a) == Ordering::Less { b } else { a }
}

/// `v` clamped between `lo` and `hi`: `lo` below it, `hi` above it, else `v`.
pub open spec fn clamped<'a, T: Ord>(v: &'a T, lo: &'a T, hi: &'a T) -> &'a T {
    if v.is_lt(lo) { lo } else if v.is_gt(hi) { hi } else { v }
}

/// The clamp of `a` between `min(b, c)` and `max(b, c)` lies between them.
pub open spec fn clamp_within_at<T: Ord>(a: &T, b: &T, c: &T) -> bool {
    let lo = model_min(b, c);
    let hi = model_max(b, c);
    let k = clamped(a, lo, hi);
    !k.is_lt(lo) && !k.is_gt(hi)
}

// What the checkers report, for types whose methods follow their models.

/// The first broken law of partial equality on `a`, `b`, `c`.
pub open spec fn partial_eq_verdict<T: PartialEq>(a: &T, b: &T, c: &T) -> Result<(), PartialEqError> {
    if !symmetric_at(a, b) {
        Err(PartialEqError::BrokeSymmetry)
    } else if !eq_transitive_at(a, b, c) {
        Err(PartialEqError::BrokeTransitivity)
    } else {
        Ok(())
    }
}

/// The first broken law of strict equality on `a`, `b`, `c`.
pub open spec fn eq_verdict<T: PartialEq>(a: &T, b: &T, c: &T) -> Result<(), Error> {
    match partial_eq_verdict(a, b, c) {
        Err(e) => Err(Error::PartialEq(e)),
        Ok(()) => if !reflexive_at(a) {
            Err(Error::Eq(EqError::BrokeReflexivity))
        } else {
            Ok(())
        },
    }
}

/// The first broken law of partial order that is not one of partial
/// equality.
pub open spec fn partial_ord_own_verdict<T: PartialOrd>(a: &T, b: &T, c: &T) -> Result<(), PartialOrdError> {
    if !partial_cmp_agrees_at(a, b) {
        Err(PartialOrdError::BadPartialCmp)
    } else if !dual_at(a, b) {
        Err(PartialOrdError::BrokeDuality)
    } else if !order_transitive_at(a, b, c) {
        Err(PartialOrdError::BrokeTransitivity)
    } else {
        Ok(())
    }
}

/// The first broken law of partial order on `a`, `b`, `c`.
pub open spec fn partial_ord_verdict<T: PartialOrd>(a: &T, b: &T, c: &T) -> Result<(), Error> {
    match partial_eq_verdict(a, b, c) {
        Err(e) => Err(Error::PartialEq(e)),
        Ok(()) => match partial_ord_own_verdict(a, b, c) {
            Err(e) => Err(Error::PartiaOrd(e)),
            Ok(()) => Ok(()),
        },
    }
}

/// The first broken law of total order that is not one of partial order or
/// strict equality.
pub open spec fn ord_own_verdict<T: Ord>(a: &T, b: &T, c: &T) -> Result<(), OrdError> {
    if !cmp_agrees_at(a, b) {
        Err(OrdError::BadCmp)
    } else if !model_max(a, b).eq_spec(expected_max(a, b)) {
        Err(OrdError::BadMax)
    } else if !model_min(a, b).eq_spec(expected_min(a, b)) {
        Err(OrdError::BadMin)
    } else if !clamp_within_at(a, b, c) {
        Err(OrdError::BadClamp)
    } else {
        Ok(())
    }
}

/// The first broken law of total order on `a`, `b`, `c`.
pub open spec fn ord_verdict<T: Ord>(a: &T, b: &T, c: &T) -> Result<(), Error> {
    match eq_verdict(a, b, c) {
        Err(e) => Err(e),
        Ok(()) => match partial_ord_own_verdict(a, b, c) {
            Err(e) => Err(Error::PartiaOrd(e)),
            Ok(()) => match ord_own_verdict(a, b, c) {
                Err(e) => Err(Error::Ord(e)),
                Ok(()) => Ok(()),
            },
        },
    }
}

/// The models of `T`'s equality, partial order and total order are all
/// followed by its methods.
pub open spec fn follows_order_models<T: Ord>() -> bool {
    &&& T::obeys_eq_spec()
    &&& T::obeys_partial_cmp_spec()
    &&& T::obeys_cmp_spec()
}

/// Under the laws of a total order, every value is equal to itself and less
/// than or greater than none.
pub proof fn lemma_total_order_reflexive<T: Ord>(x: &T)
    requires
        obeys_cmp::<T>(),
    ensures
        x.eq_spec(x),
        !x.is_lt(x),
        !x.is_gt(x),
        x.cmp_spec(x) == Ordering::Equal,
{
    reveal(obeys_partial_cmp_spec_properties);
    reveal(obeys_cmp_partial_ord);
    reveal(obeys_cmp_ord);
    assert(x.partial_cmp_spec(x) == Some(x.cmp_spec(x)));
}

/// A type whose methods follow their models and whose models obey the laws
/// of a total order passes the check of total order on any three values.
pub proof fn lemma_total_order_passes<T: Ord>(a: &T, b: &T, c: &T)
    requires
        obeys_cmp::<T>(),
    ensures
        follows_order_models::<T>(),
        ord_verdict(a, b, c) == Ok::<(), Error>(()),
{
    reveal(obeys_eq_spec_properties);
    reveal(obeys_partial_cmp_spec_properties);
    reveal(obeys_cmp_partial_ord);
    reveal(obeys_cmp_ord);
    lemma_total_order_reflexive(a);
    lemma_total_order_reflexive(b);
    lemma_total_order_reflexive(c);
    assert(a.partial_cmp_spec(b) == Some(a.cmp_spec(b)));
    assert(b.partial_cmp_spec(a) == Some(b.cmp_spec(a)));
    assert(b.partial_cmp_spec(c) == Some(b.cmp_spec(c)));
    assert(c.partial_cmp_spec(b) == Some(c.cmp_spec(b)));
    assert(a.partial_cmp_spec(c) == Some(a.cmp_spec(c)));
    assert(c.partial_cmp_spec(a) == Some(c.cmp_spec(a)));
    assert(symmetric_at(a, b));
    assert(eq_transitive_at(a, b, c));
    assert(dual_at(a, b));
    assert(order_transitive_at(a, b, c));
    assert(model_max(a, b) == expected_max(a, b));
    assert(model_min(a, b) == expected_min(a, b));
    assert(clamp_within_at(a, b, c));
}

} // verus!
