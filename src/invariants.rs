//! Checkers of single laws. Each takes up to three borrowed values (or an
//! iterator) of possibly different types, bound only by the capability that
//! its law needs, and reports the law as a [`Result`].
//!
//! The contracts of the equality and order checkers say two things. For
//! types whose methods follow the models that vstd gives them, the result
//! is the one stated over those models in [`crate::laws`]. For every type, a
//! reported violation is genuine, and so is a pass: the implementation can
//! give the answers that break the law, or that keep it.
//!
//! `Hash::hash`, `size_hint`, `count` and `last`, and what an iterator
//! yields after its first `None`, have no model: what they answer goes, as
//! an argument, to a function whose contract is exact over that answer (the
//! `*_matches` functions and `fused_verdict` here, and those of
//! [`crate::hashing`]), and each checker says that its result is that
//! function's. The iterator checkers are also stated over the model of
//! `next` and `next_back`: `remaining()`, the items still to come.
use vstd::prelude::*;
use vstd::std_specs::cmp::{PartialEqSpec, PartialOrdSpec};
use vstd::std_specs::iter::IteratorSpec;
use std::cmp::Ordering;
use std::hash::Hash;
use std::iter::FusedIterator;

use crate::error::{EqError, HashError, IteratorError, OrdError, PartialEqError, PartialOrdError};
use crate::hashing::{hasher_output, recorded_hashes_consistency, recorded_hashes_prefix_free};
use crate::iteration::{
    collect_items, count_of, exhaust, items_agree, items_reflexive, last_agrees,
    last_of, last_verdict, random_choices, size_hint_admits, size_hint_of, size_hint_verdict,
    take_interleaved,
};
use crate::laws::{
    clamp_answers, clamp_observed, clamp_of, cmp_answers, dual_at, eq_answers, eq_transitive_at, follows_order_models, ge_answers, gt_answers,
    le_answers, lt_answers, max_answers, min_answers, ne_answers, ord_own_verdict, order_transitive_at, partial_cmp_agrees_at,
    partial_cmp_answers, reflexive_at, symmetric_at,
};

verus! {

/// Checks that `ne` is the negation of `eq`.
pub fn partial_eq_methods_consistency<A, B>(a: &A, b: &B) -> (r: Result<(), PartialEqError>)
    where
        A: PartialEq<B>,
    ensures
        A::obeys_eq_spec() ==> r is Ok,
        r is Err ==> r == Err::<(), PartialEqError>(PartialEqError::BadNe),
        r is Err ==> exists|e: bool, n: bool| eq_answers(a, b, e) && ne_answers(a, b, n) && e == n,
        r is Ok ==> exists|e: bool, n: bool| eq_answers(a, b, e) && ne_answers(a, b, n) && e != n,
{
    let e = a.eq(b);
    let n = a.ne(b);
    assert(eq_answers(a, b, e) && ne_answers(a, b, n));
    if e == n {
        return Err(PartialEqError::BadNe);
    }
    Ok(())
}

/// Checks that `a == b` exactly when `b == a`.
pub fn partial_eq_symmetry<A, B>(a: &A, b: &B) -> (r: Result<(), PartialEqError>)
    where
        A: PartialEq<B>,
        B: PartialEq<A>,
    ensures
        A::obeys_eq_spec() && B::obeys_eq_spec() ==> r == (if symmetric_at(a, b) {
            Ok(())
        } else {
            Err(PartialEqError::BrokeSymmetry)
        }),
        r is Err ==> r == Err::<(), PartialEqError>(PartialEqError::BrokeSymmetry),
        r is Err ==> exists|x: bool, y: bool| eq_answers(a, b, x) && eq_answers(b, a, y) && x != y,
        r is Ok ==> exists|x: bool, y: bool| eq_answers(a, b, x) && eq_answers(b, a, y) && x == y,
{
    let x = a.eq(b);
    let y = b.eq(a);
    assert(eq_answers(a, b, x) && eq_answers(b, a, y));
    if x != y {
        return Err(PartialEqError::BrokeSymmetry);
    }
    Ok(())
}

/// Checks that `a == b` and `b == c` imply `a == c`.
pub fn partial_eq_transitivity<A, B, C>(a: &A, b: &B, c: &C) -> (r: Result<(), PartialEqError>)
    where
        A: PartialEq<B> + PartialEq<C>,
        B: PartialEq<C>,
    ensures
        <A as PartialEqSpec<B>>::obeys_eq_spec() && <A as PartialEqSpec<C>>::obeys_eq_spec()
            && B::obeys_eq_spec() ==> r == (if eq_transitive_at(a, b, c) {
            Ok(())
        } else {
            Err(PartialEqError::BrokeTransitivity)
        }),
        r is Err ==> r == Err::<(), PartialEqError>(PartialEqError::BrokeTransitivity),
        r is Err ==> eq_answers(a, b, true) && eq_answers(b, c, true) && ne_answers(a, c, true),
        r is Ok ==> eq_answers(a, b, false) || (eq_answers(a, b, true) && eq_answers(b, c, false)) || (
        eq_answers(a, b, true) && eq_answers(b, c, true) && ne_answers(a, c, false)),
{
    if a.eq(b) && b.eq(c) && a.ne(c) {
        return Err(PartialEqError::BrokeTransitivity);
    }
    Ok(())
}

/// Checks that `a == a`: the law that strict equality adds to partial
/// equality, and that a floating-point NaN breaks.
pub fn eq_reflexivity<A>(a: &A) -> (r: Result<(), EqError>)
    where
        A: PartialEq<A>,
    ensures
        A::obeys_eq_spec() ==> r == (if reflexive_at(a) {
            Ok(())
        } else {
            Err(EqError::BrokeReflexivity)
        }),
        r is Err ==> ne_answers(a, a, true),
        r is Ok ==> ne_answers(a, a, false),
{
    if a.ne(a) {
        return Err(EqError::BrokeReflexivity);
    }
    Ok(())
}

/// Checks that `eq`, `lt`, `le`, `gt` and `ge` agree with `partial_cmp`.
pub fn partial_ord_methods_consistency<A, B>(a: &A, b: &B) -> (r: Result<(), PartialOrdError>)
    where
        A: PartialOrd<B>,
    ensures
        A::obeys_eq_spec() && A::obeys_partial_cmp_spec() ==> r == (if partial_cmp_agrees_at(a, b) {
            Ok(())
        } else {
            Err(PartialOrdError::BadPartialCmp)
        }),
        !(r matches Err(PartialOrdError::BrokeDuality | PartialOrdError::BrokeTransitivity)),
        r == Err::<(), PartialOrdError>(PartialOrdError::BadPartialCmp) ==> exists|e: bool, p: Option<Ordering>|
            eq_answers(a, b, e) && partial_cmp_answers(a, b, p) && e != (p == Some(Ordering::Equal)),
        r == Err::<(), PartialOrdError>(PartialOrdError::BadLt) ==> exists|e: bool, p: Option<Ordering>, l: bool|
            eq_answers(a, b, e) && partial_cmp_answers(a, b, p) && lt_answers(a, b, l) && e == (p == Some(
                Ordering::Equal,
            )) && l != (p == Some(Ordering::Less)),
        r == Err::<(), PartialOrdError>(PartialOrdError::BadGt) ==> exists|e: bool, p: Option<Ordering>, l: bool, g: bool|
            eq_answers(a, b, e) && partial_cmp_answers(a, b, p) && lt_answers(a, b, l) && gt_answers(a, b, g) && e
                == (p == Some(Ordering::Equal)) && l == (p == Some(Ordering::Less)) && g != (p == Some(
                Ordering::Greater,
            )),
        r == Err::<(), PartialOrdError>(PartialOrdError::BadLe) ==> exists|
            e: bool,
            p: Option<Ordering>,
            l: bool,
            g: bool,
            le: bool,
        |
            eq_answers(a, b, e) && partial_cmp_answers(a, b, p) && lt_answers(a, b, l) && gt_answers(a, b, g)
                && le_answers(a, b, le) && e == (p == Some(Ordering::Equal)) && l == (p == Some(Ordering::Less)) && g
                == (p == Some(Ordering::Greater)) && le != (l || e),
        r == Err::<(), PartialOrdError>(PartialOrdError::BadGe) ==> exists|
            e: bool,
            p: Option<Ordering>,
            l: bool,
            g: bool,
            le: bool,
            ge: bool,
        |
            eq_answers(a, b, e) && partial_cmp_answers(a, b, p) && lt_answers(a, b, l) && gt_answers(a, b, g)
                && le_answers(a, b, le) && ge_answers(a, b, ge) && e == (p == Some(Ordering::Equal)) && l == (p
                == Some(Ordering::Less)) && g == (p == Some(Ordering::Greater)) && le == (l || e) && ge != (g || e),
        r is Ok ==> exists|e: bool, p: Option<Ordering>, l: bool, g: bool, le: bool, ge: bool|
            eq_answers(a, b, e) && partial_cmp_answers(a, b, p) && lt_answers(a, b, l) && gt_answers(a, b, g)
                && le_answers(a, b, le) && ge_answers(a, b, ge) && e == (p == Some(Ordering::Equal))
                && l == (p == Some(Ordering::Less)) && g == (p == Some(Ordering::Greater)) && le == (l || e)
                && ge == (g || e),
{
    let e = a.eq(b);
    let p = a.partial_cmp(b);
    if e != matches!(p, Some(Ordering::Equal)) {
        assert(eq_answers(a, b, e) && partial_cmp_answers(a, b, p));
        return Err(PartialOrdError::BadPartialCmp);
    }
    let l = a.lt(b);
    if l != matches!(p, Some(Ordering::Less)) {
        assert(eq_answers(a, b, e) && partial_cmp_answers(a, b, p) && lt_answers(a, b, l));
        return Err(PartialOrdError::BadLt);
    }
    let g = a.gt(b);
    if g != matches!(p, Some(Ordering::Greater)) {
        assert(eq_answers(a, b, e) && partial_cmp_answers(a, b, p) && lt_answers(a, b, l) && gt_answers(a, b, g));
        return Err(PartialOrdError::BadGt);
    }
    let le = a.le(b);
    if le != (l || e) {
        assert(eq_answers(a, b, e) && partial_cmp_answers(a, b, p) && lt_answers(a, b, l) && gt_answers(a, b, g)
            && le_answers(a, b, le));
        return Err(PartialOrdError::BadLe);
    }
    let ge = a.ge(b);
    if ge != (g || e) {
        assert(eq_answers(a, b, e) && partial_cmp_answers(a, b, p) && lt_answers(a, b, l) && gt_answers(a, b, g)
            && le_answers(a, b, le) && ge_answers(a, b, ge));
        return Err(PartialOrdError::BadGe);
    }
    assert(eq_answers(a, b, e) && partial_cmp_answers(a, b, p) && lt_answers(a, b, l) && gt_answers(a, b, g)
        && le_answers(a, b, le) && ge_answers(a, b, ge));
    Ok(())
}

/// Checks duality: `a > b` exactly when `b < a`. A violation is reported
/// only when both directions disagree, so that a comparison defined on one
/// side only is not taken for one.
pub fn partial_ord_duality<A, B>(a: &A, b: &B) -> (r: Result<(), PartialOrdError>)
    where
        A: PartialOrd<B>,
        B: PartialOrd<A>,
    ensures
        A::obeys_partial_cmp_spec() && B::obeys_partial_cmp_spec() ==> r == (if dual_at(a, b) {
            Ok(())
        } else {
            Err(PartialOrdError::BrokeDuality)
        }),
        r is Err ==> r == Err::<(), PartialOrdError>(PartialOrdError::BrokeDuality),
        r is Err ==> exists|w: bool, x: bool, y: bool, z: bool|
            lt_answers(a, b, w) && gt_answers(b, a, x) && gt_answers(a, b, y) && lt_answers(b, a, z)
                && w != x && y != z,
        r is Ok ==> (exists|w: bool| lt_answers(a, b, w) && gt_answers(b, a, w)) || (exists|y: bool|
            gt_answers(a, b, y) && lt_answers(b, a, y)),
{
    let w = a.lt(b);
    let x = b.gt(a);
    if w != x {
        let y = a.gt(b);
        let z = b.lt(a);
        assert(lt_answers(a, b, w) && gt_answers(b, a, x) && gt_answers(a, b, y) && lt_answers(b, a, z));
        if y != z {
            return Err(PartialOrdError::BrokeDuality);
        }
    } else {
        assert(lt_answers(a, b, w) && gt_answers(b, a, w));
    }
    Ok(())
}

/// Checks that `a < b < c` implies `a < c`, and `a > b > c` implies `a > c`.
pub fn partial_ord_transitivity<A, B, C>(a: &A, b: &B, c: &C) -> (r: Result<(), PartialOrdError>)
    where
        A: PartialOrd<B> + PartialOrd<C>,
        B: PartialOrd<C>,
    ensures
        <A as PartialOrdSpec<B>>::obeys_partial_cmp_spec() && <A as PartialOrdSpec<C>>::obeys_partial_cmp_spec()
            && B::obeys_partial_cmp_spec() ==> r == (if order_transitive_at(a, b, c) {
            Ok(())
        } else {
            Err(PartialOrdError::BrokeTransitivity)
        }),
        r is Err ==> r == Err::<(), PartialOrdError>(PartialOrdError::BrokeTransitivity),
        r is Err ==> (lt_answers(a, b, true) && lt_answers(b, c, true) && lt_answers(a, c, false))
            || (gt_answers(a, b, true) && gt_answers(b, c, true) && gt_answers(a, c, false)),
        r is Ok ==> lt_answers(a, b, false) || (lt_answers(a, b, true) && lt_answers(b, c, false)) || (lt_answers(
            a,
            b,
            true,
        ) && lt_answers(b, c, true) && lt_answers(a, c, true)),
        r is Ok ==> gt_answers(a, b, false) || (gt_answers(a, b, true) && gt_answers(b, c, false)) || (gt_answers(
            a,
            b,
            true,
        ) && gt_answers(b, c, true) && gt_answers(a, c, true)),
{
    if a.lt(b) && b.lt(c) && !a.lt(c) {
        return Err(PartialOrdError::BrokeTransitivity);
    }
    if a.gt(b) && b.gt(c) && !a.gt(c) {
        return Err(PartialOrdError::BrokeTransitivity);
    }
    Ok(())
}

/// Checks that `cmp` is total and agrees with `partial_cmp`, that `max` and
/// `min` agree with `cmp` (ties go to the second argument for `max`, to the
/// first for `min`), and that `a` clamped between `min(b, c)` and
/// `max(b, c)` lies between them.
pub fn ord_methods_consistency<T>(a: &T, b: &T, c: &T) -> (r: Result<(), OrdError>)
    where
        T: Ord,
    ensures
        follows_order_models::<T>() ==> r == ord_own_verdict(a, b, c),
        r == Err::<(), OrdError>(OrdError::BadCmp) ==> exists|p: Option<Ordering>, k: Ordering|
            partial_cmp_answers(a, b, p) && cmp_answers(a, b, k) && p != Some(k),
        r == Err::<(), OrdError>(OrdError::BadMax) ==> exists|p: Option<Ordering>, k: Ordering, m: &T|
            {
                &&& partial_cmp_answers(a, b, p) && cmp_answers(a, b, k) && p == Some(k)
                &&& max_answers(a, b, m) && ne_answers(m, if k == Ordering::Greater { a } else { b }, true)
            },
        r == Err::<(), OrdError>(OrdError::BadMin) ==> exists|p: Option<Ordering>, k: Ordering, m: &T, n: &T|
            {
                &&& partial_cmp_answers(a, b, p) && cmp_answers(a, b, k) && p == Some(k)
                &&& max_answers(a, b, m) && ne_answers(m, if k == Ordering::Greater { a } else { b }, false)
                &&& min_answers(a, b, n) && ne_answers(n, if k == Ordering::Greater { b } else { a }, true)
            },
        r == Err::<(), OrdError>(OrdError::BadClamp) ==> exists|
            p: Option<Ordering>,
            k: Ordering,
            m: &T,
            n: &T,
            lo: &T,
            hi: &T,
        |
            {
                &&& partial_cmp_answers(a, b, p) && cmp_answers(a, b, k) && p == Some(k)
                &&& max_answers(a, b, m) && ne_answers(m, if k == Ordering::Greater { a } else { b }, false)
                &&& min_answers(a, b, n) && ne_answers(n, if k == Ordering::Greater { b } else { a }, false)
                &&& min_answers(b, c, lo) && max_answers(b, c, hi) && clamp_answers(a, lo, hi, false)
            },
        r is Ok ==> exists|p: Option<Ordering>, k: Ordering, m: &T, n: &T, lo: &T, hi: &T|
            {
                &&& partial_cmp_answers(a, b, p) && cmp_answers(a, b, k) && p == Some(k)
                &&& max_answers(a, b, m) && ne_answers(m, if k == Ordering::Greater { a } else { b }, false)
                &&& min_answers(a, b, n) && ne_answers(n, if k == Ordering::Greater { b } else { a }, false)
                &&& min_answers(b, c, lo) && max_answers(b, c, hi) && clamp_answers(a, lo, hi, true)
            },
{
    let p = a.partial_cmp(b);
    let k = a.cmp(b);
    let agree = match (p, k) {
        (Some(Ordering::Less), Ordering::Less) => true,
        (Some(Ordering::Equal), Ordering::Equal) => true,
        (Some(Ordering::Greater), Ordering::Greater) => true,
        _ => false,
    };
    if !agree {
        assert(partial_cmp_answers(a, b, p) && cmp_answers(a, b, k));
        return Err(OrdError::BadCmp);
    }
    let greater = matches!(k, Ordering::Greater);
    assert(partial_cmp_answers(a, b, p) && cmp_answers(a, b, k) && p == Some(k));
    let m = <&T as Ord>::max(a, b);
    let expected_max = if greater { a } else { b };
    let bad_max = m.ne(expected_max);
    assert(max_answers(a, b, m) && ne_answers(m, expected_max, bad_max));
    if bad_max {
        return Err(OrdError::BadMax);
    }
    let n = <&T as Ord>::min(a, b);
    let expected_min = if greater { b } else { a };
    let bad_min = n.ne(expected_min);
    assert(min_answers(a, b, n) && ne_answers(n, expected_min, bad_min));
    if bad_min {
        return Err(OrdError::BadMin);
    }
    // std's `clamp` panics unless `lo <= hi`; its rule is applied here
    // directly, so that an inconsistent order is reported instead.
    let lo = <&T as Ord>::min(b, c);
    let hi = <&T as Ord>::max(b, c);
    let below = a.lt(lo);
    let above = if below { false } else { a.gt(hi) };
    let v = if below {
        lo
    } else if above {
        hi
    } else {
        a
    };
    let under = v.lt(lo);
    let over = if under { false } else { v.gt(hi) };
    assert(v == clamp_of(a, lo, hi, below, above));
    assert(clamp_observed(a, lo, hi, below, above, under, over));
    assert(clamp_answers(a, lo, hi, !under && !over));
    assert(min_answers(b, c, lo) && max_answers(b, c, hi));
    if under || over {
        return Err(OrdError::BadClamp);
    }
    assert(partial_cmp_answers(a, b, p) && cmp_answers(a, b, k) && max_answers(a, b, m) && min_answers(a, b, n));
    Ok(())
}

/// Checks that two values are equal exactly when the bytes recorded from
/// hashing them are identical.
pub fn hash_consistency_with_eq<K>(a: &K, b: &K) -> (r: Result<(), HashError>)
    where
        K: Hash + Eq + ?Sized,
    ensures
        r is Err ==> r == Err::<(), HashError>(HashError::EqualButDifferentHashes),
        exists|equal: bool, out_a: &[u8], out_b: &[u8]|
            #![trigger eq_answers(a, b, equal), call_ensures(recorded_hashes_consistency, (equal, out_a, out_b), r)]
            eq_answers(a, b, equal) && call_ensures(recorded_hashes_consistency, (equal, out_a, out_b), r),
{
    let out_a = hasher_output(a);
    let out_b = hasher_output(b);
    let equal = a.eq(b);
    let (x, y) = (out_a.as_slice(), out_b.as_slice());
    let r = recorded_hashes_consistency(equal, x, y);
    assert(eq_answers(a, b, equal) && call_ensures(recorded_hashes_consistency, (equal, x, y), r));
    r
}

/// Checks that, for two unequal values, neither recorded byte sequence is a
/// prefix of the other.
pub fn hash_prefix_collision<K>(a: &K, b: &K) -> (r: Result<(), HashError>)
    where
        K: Hash + Eq + ?Sized,
    ensures
        r is Err ==> r == Err::<(), HashError>(HashError::PrefixCollision),
        r is Err ==> call_ensures(<K as PartialEq>::ne, (a, b), true),
        (ne_answers(a, b, false) && r is Ok) || exists|out_a: &[u8], out_b: &[u8]|
            #[trigger] call_ensures(recorded_hashes_prefix_free, (true, out_a, out_b), r) && ne_answers(a, b, true),
{
    let unequal = a.ne(b);
    if !unequal {
        assert(ne_answers(a, b, false));
        return Ok(());
    }
    let out_a = hasher_output(a);
    let out_b = hasher_output(b);
    let (x, y) = (out_a.as_slice(), out_b.as_slice());
    let r = recorded_hashes_prefix_free(unequal, x, y);
    assert(ne_answers(a, b, true) && call_ensures(recorded_hashes_prefix_free, (true, x, y), r));
    r
}

/// Checks a size hint that `iter` gave against the number of items that
/// `next` yields on it: the lower bound must not exceed that number, nor
/// that number the upper bound, if there is one.
pub fn size_hint_matches<I>(iter: I, hint: (usize, Option<usize>)) -> (r: Result<(), IteratorError>)
    where
        I: Iterator,
    ensures
        r is Err ==> r == Err::<(), IteratorError>(IteratorError::BadSizeHint),
        iter.obeys_prophetic_iter_laws() && iter.remaining().len() < usize::MAX - 1 ==> r == (if size_hint_admits(
            hint.0,
            hint.1,
            iter.remaining().len(),
        ) {
            Ok(())
        } else {
            Err(IteratorError::BadSizeHint)
        }),
{
    let mut it = iter;
    let count = exhaust(&mut it);
    size_hint_verdict(hint, count)
}

/// Checks that `size_hint` bounds the number of items that `next` yields.
pub fn iterator_size_hint<I>(iter: I) -> (r: Result<(), IteratorError>)
    where
        I: Iterator,
    ensures
        r is Err ==> r == Err::<(), IteratorError>(IteratorError::BadSizeHint),
        exists|hint: (usize, Option<usize>)| #[trigger] call_ensures(size_hint_matches::<I>, (iter, hint), r),
{
    let hint = size_hint_of(&iter);
    let r = size_hint_matches(iter, hint);
    assert(call_ensures(size_hint_matches::<I>, (iter, hint), r));
    r
}

/// Checks a count that an independent clone of `iter` gave against the
/// number of items that `next` yields on `iter`.
pub fn count_matches<I>(iter: I, count: usize) -> (r: Result<(), IteratorError>)
    where
        I: Iterator,
    ensures
        r is Err ==> r == Err::<(), IteratorError>(IteratorError::BadCount),
        iter.obeys_prophetic_iter_laws() && iter.remaining().len() < usize::MAX - 1 ==> r == (if count
            == iter.remaining().len() {
            Ok(())
        } else {
            Err(IteratorError::BadCount)
        }),
{
    let items = collect_items(iter);
    if count != items.len() {
        return Err(IteratorError::BadCount);
    }
    Ok(())
}

/// Checks that `count` equals the number of items that `next` yields on an
/// independent clone.
pub fn iterator_count<I>(iter: I) -> (r: Result<(), IteratorError>)
    where
        I: Iterator + Clone,
    ensures
        r is Err ==> r == Err::<(), IteratorError>(IteratorError::BadCount),
        exists|count: usize| #[trigger] call_ensures(count_matches::<I>, (iter, count), r),
{
    let count = count_of(iter.clone());
    let r = count_matches(iter, count);
    assert(call_ensures(count_matches::<I>, (iter, count), r));
    r
}

/// Checks a last item that an independent clone of `iter` gave against the
/// last item that `next` yields on `iter`: both must be absent, or equal.
pub fn last_matches<I>(iter: I, last: Option<I::Item>) -> (r: Result<(), IteratorError>)
    where
        I: Iterator,
        I::Item: PartialEq,
    ensures
        r is Err ==> r == Err::<(), IteratorError>(IteratorError::BadLast),
        iter.obeys_prophetic_iter_laws() && iter.remaining().len() < usize::MAX - 1
            && <I::Item as PartialEqSpec>::obeys_eq_spec() ==> r == (if last_agrees(last, iter.remaining()) {
            Ok(())
        } else {
            Err(IteratorError::BadLast)
        }),
{
    let items = collect_items(iter);
    last_verdict(&last, items.as_slice())
}

/// Checks that `last` equals the last item that `next` yields on an
/// independent clone, or that both are absent.
pub fn iterator_last<I>(iter: I) -> (r: Result<(), IteratorError>)
    where
        I: Iterator + Clone,
        I::Item: PartialEq,
    ensures
        r is Err ==> r == Err::<(), IteratorError>(IteratorError::BadLast),
        exists|last: Option<I::Item>| #[trigger] call_ensures(last_matches::<I>, (iter, last), r),
{
    let last = last_of(iter.clone());
    let r = last_matches(iter, last);
    assert(call_ensures(last_matches::<I>, (iter, last), r));
    r
}

/// Checks the items taken from the front and from the back of an
/// iterator (each in the order taken) against the items that `next` yields
/// on an independent clone: the front items followed by the back items
/// reversed must equal them, item by item.
pub fn next_back_matches<T: PartialEq>(front: &[T], back: &[T], collected: &[T]) -> (r: Result<(), IteratorError>)
    ensures
        r is Err ==> r == Err::<(), IteratorError>(IteratorError::BadNextBack),
        T::obeys_eq_spec() ==> r == (if items_agree(front@ + back@.reverse(), collected@) {
            Ok(())
        } else {
            Err(IteratorError::BadNextBack)
        }),
{
    let ghost assembled = front@ + back@.reverse();
    if front.len() > collected.len() || back.len() != collected.len() - front.len() {
        return Err(IteratorError::BadNextBack);
    }
    let n = front.len();
    let total = collected.len();
    let mut i: usize = 0;
    while i < n
        invariant
            total == collected@.len(),
            n == front@.len(),
            n + back@.len() == collected@.len(),
            assembled == front@ + back@.reverse(),
            i <= n,
            T::obeys_eq_spec() ==> forall|j: int| 0 <= j < i ==> #[trigger] assembled[j].eq_spec(&collected@[j]),
        decreases n - i,
    {
        assert(assembled[i as int] == front@[i as int]);
        if !front[i].eq(&collected[i]) {
            return Err(IteratorError::BadNextBack);
        }
        i = i + 1;
    }
    let m = back.len();
    let mut j: usize = 0;
    while j < m
        invariant
            total == collected@.len(),
            n == front@.len(),
            m == back@.len(),
            n + m == collected@.len(),
            assembled == front@ + back@.reverse(),
            j <= m,
            T::obeys_eq_spec() ==> forall|k: int| 0 <= k < n + j ==> #[trigger] assembled[k].eq_spec(&collected@[k]),
        decreases m - j,
    {
        assert(assembled[n + j] == back@[m - 1 - j]);
        assert(n + j < total);
        if !back[m - 1 - j].eq(&collected[n + j]) {
            return Err(IteratorError::BadNextBack);
        }
        j = j + 1;
    }
    Ok(())
}

/// Checks that items taken from the front and the back, in the order that
/// `fronts` gives (step `k` from the back where `fronts[k]` is false, from
/// the front otherwise), are those that `next` yields on an independent
/// clone: the front items followed by the back items reversed. The items
/// taken go to [`next_back_matches`].
///
/// An iterator that obeys the laws of `DoubleEndedIterator`, whose clones
/// yield what it yields and whose items are equal to themselves passes for
/// every `fronts`.
pub fn double_ended_iterator_interleaved<I>(iter: I, fronts: &[bool]) -> (r: Result<(), IteratorError>)
    where
        I: DoubleEndedIterator + Clone,
        I::Item: PartialEq,
    ensures
        r is Err ==> r == Err::<(), IteratorError>(IteratorError::BadNextBack),
        iter.obeys_prophetic_iter_laws() && iter.remaining().len() < usize::MAX - 1
            && (forall|c: I| #[trigger] cloned(iter, c) ==> c.obeys_prophetic_iter_laws() && c.remaining() == iter.remaining())
            && <I::Item as PartialEqSpec>::obeys_eq_spec() && items_reflexive(iter.remaining()) ==> r is Ok,
        exists|front: &[I::Item], back: &[I::Item], collected: &[I::Item]|
            #[trigger] call_ensures(next_back_matches::<I::Item>, (front, back, collected), r) && (exists|c: I|
                cloned(iter, c) && (c.obeys_prophetic_iter_laws() && c.remaining().len() < usize::MAX - 1 ==> collected@
                    == c.remaining())) && (iter.obeys_prophetic_iter_laws() && iter.remaining().len() <= collected@.len()
                ==> front@ + back@.reverse() == iter.remaining()),
{
    let c = iter.clone();
    assert(cloned(iter, c));
    let collected = collect_items(c);
    let (front, back) = take_interleaved(iter, fronts, collected.len());
    let (f, b, k) = (front.as_slice(), back.as_slice(), collected.as_slice());
    let r = next_back_matches(f, b, k);
    assert(call_ensures(next_back_matches::<I::Item>, (f, b, k), r));
    assert(cloned(iter, c));
    r
}

/// Checks `next_back` against `next` as
/// [`double_ended_iterator_interleaved`] does, on a random interleaving.
/// The law holds for every interleaving, so the outcome of an iterator that
/// obeys it does not depend on the draw.
pub fn double_ended_iterator_next_back<I>(iter: I) -> (r: Result<(), IteratorError>)
    where
        I: DoubleEndedIterator + Clone,
        I::Item: PartialEq,
    ensures
        r is Err ==> r == Err::<(), IteratorError>(IteratorError::BadNextBack),
        iter.obeys_prophetic_iter_laws() && iter.remaining().len() < usize::MAX - 1
            && (forall|c: I| #[trigger] cloned(iter, c) ==> c.obeys_prophetic_iter_laws() && c.remaining() == iter.remaining())
            && <I::Item as PartialEqSpec>::obeys_eq_spec() && items_reflexive(iter.remaining()) ==> r is Ok,
        exists|front: &[I::Item], back: &[I::Item], collected: &[I::Item]|
            #[trigger] call_ensures(next_back_matches::<I::Item>, (front, back, collected), r) && (exists|c: I|
                cloned(iter, c) && (c.obeys_prophetic_iter_laws() && c.remaining().len() < usize::MAX - 1 ==> collected@
                    == c.remaining())) && (iter.obeys_prophetic_iter_laws() && iter.remaining().len() <= collected@.len()
                ==> front@ + back@.reverse() == iter.remaining()),
{
    let c = iter.clone();
    assert(cloned(iter, c));
    let collected = collect_items(c);
    let fronts = random_choices(collected.len() + 1);
    let (front, back) = take_interleaved(iter, fronts.as_slice(), collected.len());
    let (f, b, k) = (front.as_slice(), back.as_slice(), collected.as_slice());
    let r = next_back_matches(f, b, k);
    assert(call_ensures(next_back_matches::<I::Item>, (f, b, k), r));
    assert(cloned(iter, c));
    r
}

/// Judges what `next` answered on the polls after its first `None`
/// (`true` where it yielded an item): a fused iterator yields none.
pub fn fused_verdict(later_some: &[bool]) -> (r: Result<(), IteratorError>)
    ensures
        r == (if exists|k: int| 0 <= k < later_some@.len() && later_some@[k] {
            Err(IteratorError::FusedIteratorReturnedSomeAfterExhaustion)
        } else {
            Ok(())
        }),
{
    let mut i: usize = 0;
    while i < later_some.len()
        invariant
            i <= later_some@.len(),
            forall|k: int| 0 <= k < i ==> !later_some@[k],
        decreases later_some.len() - i,
    {
        if later_some[i] {
            return Err(IteratorError::FusedIteratorReturnedSomeAfterExhaustion);
        }
        i = i + 1;
    }
    Ok(())
}

/// Checks that, once `next` has returned `None`, it keeps doing so: it is
/// polled one time more than the number of items it yielded (or until it
/// yields one), and the answers go to [`fused_verdict`].
pub fn fused_iterator_none_forever<I>(iter: I) -> (r: Result<(), IteratorError>)
    where
        I: FusedIterator + Clone,
    ensures
        r is Err ==> r == Err::<(), IteratorError>(IteratorError::FusedIteratorReturnedSomeAfterExhaustion),
        iter.obeys_prophetic_iter_laws() && iter.remaining().len() < usize::MAX - 1 ==> r is Ok,
        exists|later: &[bool]| #[trigger] call_ensures(fused_verdict, (later,), r),
        iter.obeys_prophetic_iter_laws() && iter.remaining().len() < usize::MAX - 1 ==> exists|later: &[bool]|
            #[trigger] call_ensures(fused_verdict, (later,), r) && later@.len() == iter.remaining().len() + 1,
{
    let mut it = iter;
    let count = exhaust(&mut it);
    let mut later: Vec<bool> = Vec::new();
    let mut polls: usize = 0;
    let mut seen = false;
    while polls <= count && !seen
        invariant
            count <= usize::MAX - 1,
            polls <= count + 1,
            later@.len() == polls,
            it.obeys_prophetic_iter_laws() == iter.obeys_prophetic_iter_laws(),
            iter.obeys_prophetic_iter_laws() && iter.remaining().len() < usize::MAX - 1 ==> it.remaining().len() == 0,
            iter.obeys_prophetic_iter_laws() && iter.remaining().len() < usize::MAX - 1 ==> forall|k: int|
                0 <= k < later@.len() ==> !later@[k],
            iter.obeys_prophetic_iter_laws() && iter.remaining().len() < usize::MAX - 1 ==> !seen
                && count == iter.remaining().len(),
        decreases count + 1 - polls,
    {
        let some = it.next().is_some();
        later.push(some);
        seen = some;
        polls = polls + 1;
    }
    let answers = later.as_slice();
    let r = fused_verdict(answers);
    assert(call_ensures(fused_verdict, (answers,), r));
    r
}

} // verus!
