//! Hashing through a sink that scrambles nothing: it records every byte that
//! a `Hash` implementation feeds it, so that the checks can compare the
//! recorded byte sequences themselves.
use vstd::prelude::*;
use std::hash::{Hash, Hasher};

use crate::error::HashError;

verus! {

/// A hasher that records the bytes it is fed, in order.
pub(crate) struct ByteRecorder {
    bytes: Vec<u8>,
}

impl Hasher for ByteRecorder {
    fn finish(&self) -> u64 {
        0
    }

    fn write(&mut self, bytes: &[u8]) {
        self.bytes.extend_from_slice(bytes);
    }
}

/// The bytes that `item`'s `Hash` implementation feeds a [`ByteRecorder`].
///
/// Relies on `Hash::hash` of `K`, which writes to the hasher it is given.
/// What it writes is up to the implementation under test, and nothing
/// holds it to the same bytes on every call, so nothing is stated of the
/// result.
#[verifier::external_body]
pub(crate) fn hasher_output<K: Hash + ?Sized>(item: &K) -> Vec<u8> {
    let mut recorder = ByteRecorder { bytes: Vec::new() };
    item.hash(&mut recorder);
    recorder.bytes
}

/// `p` is an initial segment of `s` (or all of it).
pub open spec fn is_prefix(p: Seq<u8>, s: Seq<u8>) -> bool {
    p.len() <= s.len() && s.subrange(0, p.len() as int) == p
}

/// What the check of hash/equality consistency reports, given whether the
/// two values were found equal and the bytes recorded from each.
pub open spec fn consistency_verdict(equal: bool, out_a: Seq<u8>, out_b: Seq<u8>) -> Result<(), HashError> {
    if equal == (out_a == out_b) {
        Ok(())
    } else {
        Err(HashError::EqualButDifferentHashes)
    }
}

/// What the check of prefix-freedom reports, given whether the two values
/// were found unequal and the bytes recorded from each.
pub open spec fn prefix_verdict(unequal: bool, out_a: Seq<u8>, out_b: Seq<u8>) -> Result<(), HashError> {
    if unequal && (is_prefix(out_a, out_b) || is_prefix(out_b, out_a)) {
        Err(HashError::PrefixCollision)
    } else {
        Ok(())
    }
}

/// `p` is a prefix of `s`.
fn starts_with(s: &[u8], p: &[u8]) -> (r: bool)
    ensures
        r == is_prefix(p@, s@),
{
    if p.len() > s.len() {
        return false;
    }
    let mut i: usize = 0;
    while i < p.len()
        invariant
            p@.len() <= s@.len(),
            i <= p@.len(),
            forall|j: int| 0 <= j < i ==> s@[j] == p@[j],
        decreases p.len() - i,
    {
        if s[i] != p[i] {
            assert(s@.subrange(0, p@.len() as int)[i as int] != p@[i as int]);
            return false;
        }
        i = i + 1;
    }
    assert(s@.subrange(0, p@.len() as int) =~= p@);
    true
}

/// Checks the bytes recorded from hashing two values against whether the
/// values were found equal: they must be identical exactly when the values
/// are equal.
pub fn recorded_hashes_consistency(equal: bool, out_a: &[u8], out_b: &[u8]) -> (r: Result<(), HashError>)
    ensures
        r == consistency_verdict(equal, out_a@, out_b@),
{
    let same = out_a.len() == out_b.len() && starts_with(out_a, out_b);
    proof {
        if out_a@.len() == out_b@.len() && is_prefix(out_b@, out_a@) {
            assert(out_a@ =~= out_a@.subrange(0, out_b@.len() as int));
        }
        if out_a@ == out_b@ {
            assert(out_a@.subrange(0, out_b@.len() as int) =~= out_b@);
        }
    }
    if equal != same {
        return Err(HashError::EqualButDifferentHashes);
    }
    Ok(())
}

/// Checks the bytes recorded from hashing two values that were found
/// unequal: neither may be a prefix of the other.
pub fn recorded_hashes_prefix_free(unequal: bool, out_a: &[u8], out_b: &[u8]) -> (r: Result<(), HashError>)
    ensures
        r == prefix_verdict(unequal, out_a@, out_b@),
{
    if unequal && (starts_with(out_a, out_b) || starts_with(out_b, out_a)) {
        return Err(HashError::PrefixCollision);
    }
    Ok(())
}

/// For two values whose bytes were recorded, both hash checks pass exactly
/// when equal values recorded identical bytes and, for unequal values,
/// neither byte sequence is a prefix of the other.
pub proof fn lemma_recorded_hashes(equal: bool, out_a: Seq<u8>, out_b: Seq<u8>)
    ensures
        (consistency_verdict(equal, out_a, out_b) is Ok && prefix_verdict(!equal, out_a, out_b) is Ok)
            <==> ((equal ==> out_a == out_b) && (!equal ==> !is_prefix(out_a, out_b) && !is_prefix(out_b, out_a))),
{
    if out_a == out_b {
        assert(out_a.subrange(0, out_a.len() as int) =~= out_a);
    }
}

} // verus!
