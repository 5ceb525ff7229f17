//! Violation kinds: one enumeration per capability, one variant per law,
//! and an umbrella type that wraps whichever capability failed.
use vstd::prelude::*;

verus! {

/// A broken law of partial equality.
#[derive(Debug, Clone, Copy, PartialEq, Eq, Structural)]
#[non_exhaustive]
pub enum PartialEqError {
    /// `ne` must always return the negation of `eq`.
    BadNe,
    /// `a == b` must imply `b == a`.
    BrokeSymmetry,
    /// `a == b && b == c` must imply `a == c`.
    BrokeTransitivity,
}

/// A broken law of strict equality (beyond those of partial equality).
#[derive(Debug, Clone, Copy, PartialEq, Eq, Structural)]
#[non_exhaustive]
pub enum EqError {
    /// Every value must be equal to itself.
    BrokeReflexivity,
}

/// A broken law of partial order (beyond those of partial equality).
#[derive(Debug, Clone, Copy, PartialEq, Eq, Structural)]
#[non_exhaustive]
pub enum PartialOrdError {
    /// `partial_cmp` must return `Some(Equal)` exactly when `eq` returns `true`.
    BadPartialCmp,
    /// `lt` must return `true` exactly when `partial_cmp` returns `Some(Less)`.
    BadLt,
    /// `le` must return `true` exactly when `lt` or `eq` does.
    BadLe,
    /// `gt` must return `true` exactly when `partial_cmp` returns `Some(Greater)`.
    BadGt,
    /// `ge` must return `true` exactly when `gt` or `eq` does.
    BadGe,
    /// `a > b` must hold exactly when `b < a` does.
    BrokeDuality,
    /// `a < b && b < c` must imply `a < c`; the same for `>`.
    BrokeTransitivity,
}

/// A broken law of total order (beyond those of partial order and strict
/// equality).
#[derive(Debug, Clone, Copy, PartialEq, Eq, Structural)]
#[non_exhaustive]
pub enum OrdError {
    /// `cmp` must be total and agree with `partial_cmp`.
    BadCmp,
    /// `max` must agree with `cmp`, resolving ties toward its second argument.
    BadMax,
    /// `min` must agree with `cmp`, resolving ties toward its first argument.
    BadMin,
    /// A value clamped between the minimum and the maximum of two others must
    /// lie between them.
    BadClamp,
}

/// A broken law of hashing.
#[derive(Debug, Clone, Copy, PartialEq, Eq, Structural)]
#[non_exhaustive]
pub enum HashError {
    /// Values must be equal exactly when their recorded hash bytes are.
    EqualButDifferentHashes,
    /// For unequal values, neither recorded byte sequence may be a prefix of
    /// the other.
    PrefixCollision,
}

/// A broken law of iteration.
#[derive(Debug, Clone, Copy, PartialEq, Eq, Structural)]
#[non_exhaustive]
pub enum IteratorError {
    /// `size_hint` must bound the number of items that `next` yields.
    BadSizeHint,
    /// `count` must equal the number of items that `next` yields.
    BadCount,
    /// `last` must equal the last item that `next` yields.
    BadLast,
    /// Items taken from the back must be those taken from the front, in
    /// reverse order.
    BadNextBack,
    /// A fused iterator must keep returning `None` once it has done so.
    FusedIteratorReturnedSomeAfterExhaustion,
}

/// A broken law of any capability.
#[derive(Debug, Clone, Copy, PartialEq, Eq, Structural)]
#[non_exhaustive]
pub enum Error {
    PartialEq(PartialEqError),
    Eq(EqError),
    PartiaOrd(PartialOrdError),
    Ord(OrdError),
    Hash(HashError),
    Iterator(IteratorError),
}

impl From<PartialEqError> for Error {
    fn from(e: PartialEqError) -> (r: Error)
        ensures
            r == Error::PartialEq(e),
    {
        Error::PartialEq(e)
    }
}

impl vstd::std_specs::convert::FromSpecImpl<PartialEqError> for Error {
    open spec fn obeys_from_spec() -> bool {
        true
    }

    open spec fn from_spec(e: PartialEqError) -> Error {
        Error::PartialEq(e)
    }
}

impl From<EqError> for Error {
    fn from(e: EqError) -> (r: Error)
        ensures
            r == Error::Eq(e),
    {
        Error::Eq(e)
    }
}

impl vstd::std_specs::convert::FromSpecImpl<EqError> for Error {
    open spec fn obeys_from_spec() -> bool {
        true
    }

    open spec fn from_spec(e: EqError) -> Error {
        Error::Eq(e)
    }
}

impl From<PartialOrdError> for Error {
    fn from(e: PartialOrdError) -> (r: Error)
        ensures
            r == Error::PartiaOrd(e),
    {
        Error::PartiaOrd(e)
    }
}

impl vstd::std_specs::convert::FromSpecImpl<PartialOrdError> for Error {
    open spec fn obeys_from_spec() -> bool {
        true
    }

    open spec fn from_spec(e: PartialOrdError) -> Error {
        Error::PartiaOrd(e)
    }
}

impl From<OrdError> for Error {
    fn from(e: OrdError) -> (r: Error)
        ensures
            r == Error::Ord(e),
    {
        Error::Ord(e)
    }
}

impl vstd::std_specs::convert::FromSpecImpl<OrdError> for Error {
    open spec fn obeys_from_spec() -> bool {
        true
    }

    open spec fn from_spec(e: OrdError) -> Error {
        Error::Ord(e)
    }
}

impl From<HashError> for Error {
    fn from(e: HashError) -> (r: Error)
        ensures
            r == Error::Hash(e),
    {
        Error::Hash(e)
    }
}

impl vstd::std_specs::convert::FromSpecImpl<HashError> for Error {
    open spec fn obeys_from_spec() -> bool {
        true
    }

    open spec fn from_spec(e: HashError) -> Error {
        Error::Hash(e)
    }
}

impl From<IteratorError> for Error {
    fn from(e: IteratorError) -> (r: Error)
        ensures
            r == Error::Iterator(e),
    {
        Error::Iterator(e)
    }
}

impl vstd::std_specs::convert::FromSpecImpl<IteratorError> for Error {
    open spec fn obeys_from_spec() -> bool {
        true
    }

    open spec fn from_spec(e: IteratorError) -> Error {
        Error::Iterator(e)
    }
}

} // verus!
