use std::collections::BTreeSet;
use std::hash::{Hash, Hasher};
use std::marker::PhantomData;
use std::rc::Rc;

use reltester::error::HashError;
use reltester::hashing::{recorded_hashes_consistency, recorded_hashes_prefix_free};
use reltester::invariants::{hash_consistency_with_eq, hash_prefix_collision};

#[test]
fn hash_array_tuples() {
    let x1 = ([1, 2, 3, 4], [5, 6, 7, 8]);
    let x2 = ([0, 0, 0, 0], [5, 6, 7, 8]);
    assert!(reltester::hash(&x1, &x2).is_ok());
}

#[test]
fn hash_phantomdata() {
    let phantom = PhantomData::<u32>::default();
    assert!(reltester::hash(&phantom, &phantom).is_ok());
}

#[test]
fn hash_rc() {
    let rc1 = Rc::new(1337);
    let rc2 = Rc::new(1337);
    let _rc2_cloned = rc2.clone();
    assert!(reltester::hash(&rc1, &rc2).is_ok());
}

#[test]
fn hash_strings() {
    let samples = ["", "a", "ab", "abc", "b", "ba", "\u{0}"];
    for x in samples.iter() {
        for y in samples.iter() {
            assert!(reltester::hash(&x.to_string(), &y.to_string()).is_ok());
        }
    }
}

#[test]
fn hash_u32_values() {
    let samples = [0u32, 1, 255, 256, 65535, u32::MAX];
    for x in samples.iter() {
        for y in samples.iter() {
            assert!(reltester::hash(x, y).is_ok());
        }
    }
}

#[test]
fn hash_string_tuples() {
    let x1 = ("ab".to_string(), "c".to_string());
    let x2 = ("a".to_string(), "bc".to_string());
    assert!(reltester::hash(&x1, &x2).is_ok());
    assert!(reltester::hash(&x1, &x1.clone()).is_ok());
}

#[test]
fn hash_btreeset_of_units() {
    let empty: BTreeSet<()> = BTreeSet::new();
    let mut one: BTreeSet<()> = BTreeSet::new();
    one.insert(());
    assert!(reltester::hash(&empty, &one).is_ok());
    assert!(reltester::hash(&one, &one.clone()).is_ok());
}

#[test]
fn hash_str_unsized() {
    assert!(reltester::hash("abc", "abd").is_ok());
    assert!(reltester::hash("abc", "abc").is_ok());
}

/// Two strings hashed back to back with no separator: ("ab", "c") and
/// ("a", "bc") feed the same bytes.
#[derive(PartialEq, Eq)]
struct Concat(String, String);

impl Hash for Concat {
    fn hash<H: Hasher>(&self, state: &mut H) {
        state.write(self.0.as_bytes());
        state.write(self.1.as_bytes());
    }
}

#[test]
fn hash_unequal_values_with_equal_bytes() {
    let a = Concat("ab".to_string(), "c".to_string());
    let b = Concat("a".to_string(), "bc".to_string());
    assert!(matches!(hash_consistency_with_eq(&a, &b), Err(HashError::EqualButDifferentHashes)));
    assert!(matches!(reltester::hash(&a, &b), Err(HashError::EqualButDifferentHashes)));
}

#[test]
fn hash_prefix_collision_detected() {
    let a = Concat("ab".to_string(), "".to_string());
    let b = Concat("ab".to_string(), "c".to_string());
    assert!(hash_consistency_with_eq(&a, &b).is_ok());
    assert!(matches!(hash_prefix_collision(&a, &b), Err(HashError::PrefixCollision)));
    assert!(matches!(reltester::hash(&a, &b), Err(HashError::PrefixCollision)));
}

/// Equality ignores the second field, hashing does not.
#[derive(Eq)]
struct Loose(u8, u8);

impl PartialEq for Loose {
    fn eq(&self, other: &Loose) -> bool {
        self.0 == other.0
    }
}

impl Hash for Loose {
    fn hash<H: Hasher>(&self, state: &mut H) {
        state.write_u8(self.0);
        state.write_u8(self.1);
    }
}

#[test]
fn hash_equal_values_with_different_bytes() {
    let a = Loose(1, 2);
    let b = Loose(1, 3);
    assert!(matches!(reltester::hash(&a, &b), Err(HashError::EqualButDifferentHashes)));
    assert!(hash_prefix_collision(&a, &b).is_ok());
}

#[test]
fn hash_recorded_bytes_consistency() {
    assert_eq!(recorded_hashes_consistency(true, &[1, 2], &[1, 2]), Ok(()));
    assert_eq!(recorded_hashes_consistency(false, &[1, 2], &[1, 3]), Ok(()));
    assert_eq!(recorded_hashes_consistency(true, &[], &[]), Ok(()));
    assert_eq!(
        recorded_hashes_consistency(true, &[1, 2], &[1]),
        Err(HashError::EqualButDifferentHashes)
    );
    assert_eq!(
        recorded_hashes_consistency(false, &[7], &[7]),
        Err(HashError::EqualButDifferentHashes)
    );
}

#[test]
fn hash_recorded_bytes_prefix_free() {
    assert_eq!(recorded_hashes_prefix_free(true, &[1, 2], &[1, 3]), Ok(()));
    assert_eq!(recorded_hashes_prefix_free(true, &[1], &[1, 3]), Err(HashError::PrefixCollision));
    assert_eq!(recorded_hashes_prefix_free(true, &[1, 3], &[1]), Err(HashError::PrefixCollision));
    assert_eq!(recorded_hashes_prefix_free(true, &[], &[4]), Err(HashError::PrefixCollision));
    assert_eq!(recorded_hashes_prefix_free(false, &[1], &[1, 3]), Ok(()));
    assert_eq!(recorded_hashes_prefix_free(true, &[2, 1], &[1, 2]), Ok(()));
}

#[test]
fn hash_repeated_check_same_result() {
    let a = Concat("ab".to_string(), "".to_string());
    let b = Concat("ab".to_string(), "c".to_string());
    assert_eq!(reltester::hash(&a, &b), reltester::hash(&a, &b));
    assert_eq!(reltester::hash(&3u64, &4u64), reltester::hash(&3u64, &4u64));
}

#[test]
fn hash_error_converts_to_umbrella() {
    assert_eq!(
        reltester::error::Error::from(HashError::PrefixCollision),
        reltester::error::Error::Hash(HashError::PrefixCollision)
    );
}
