use std::collections::BTreeSet;

use reltester::error::{Error, IteratorError};
use reltester::invariants::{
    count_matches, double_ended_iterator_interleaved, double_ended_iterator_next_back,
    fused_iterator_none_forever, fused_verdict, iterator_count, next_back_matches, iterator_last, iterator_size_hint, last_matches,
    size_hint_matches,
};

#[test]
fn iterator_chars() {
    for s in ["", "a", "héllo", "日本語", "a\u{0}b"].iter() {
        assert!(reltester::iterator(s.char_indices()).is_ok());
        assert!(reltester::double_ended_iterator(s.chars()).is_ok());
    }
}

#[test]
fn iterator_vec_of_strings() {
    let x: Vec<String> = vec!["a".to_string(), "".to_string(), "bc".to_string(), "a".to_string()];
    for n in 0..=x.len() {
        let part = &x[..n];
        assert!(reltester::double_ended_iterator(part.iter()).is_ok());
        assert!(reltester::fused_iterator(part.iter()).is_ok());
    }
}

#[test]
fn iterator_btreeset_of_u32() {
    let x: BTreeSet<u32> = [5u32, 1, 9, 3, u32::MAX].iter().cloned().collect();
    assert!(reltester::double_ended_iterator(x.iter()).is_ok());
    assert!(reltester::fused_iterator(x.iter()).is_ok());
    assert!(reltester::iterator(x.iter()).is_ok());
}

#[test]
fn vec_u32_is_truly_double_ended() {
    let x: Vec<u32> = (0..50).collect();
    for _ in 0..20 {
        assert!(reltester::double_ended_iterator(x.iter()).is_ok());
        assert!(double_ended_iterator_next_back(x.iter()).is_ok());
    }
}

#[test]
fn double_ended_every_interleaving() {
    let x: Vec<u32> = vec![1, 2, 3, 4, 5];
    for mask in 0u32..64 {
        let fronts: Vec<bool> = (0..6).map(|k| mask & (1 << k) != 0).collect();
        assert_eq!(double_ended_iterator_interleaved(x.iter(), &fronts), Ok(()));
    }
    assert_eq!(double_ended_iterator_interleaved(x.iter(), &[]), Ok(()));
    let empty: Vec<u32> = Vec::new();
    assert_eq!(double_ended_iterator_interleaved(empty.iter(), &[false]), Ok(()));
}

/// Yields `0..n`, but `next_back` takes from the front.
#[derive(Clone)]
struct FrontOnly {
    next: u32,
    end: u32,
}

impl Iterator for FrontOnly {
    type Item = u32;
    fn next(&mut self) -> Option<u32> {
        if self.next < self.end {
            self.next += 1;
            Some(self.next - 1)
        } else {
            None
        }
    }
}

impl DoubleEndedIterator for FrontOnly {
    fn next_back(&mut self) -> Option<u32> {
        self.next()
    }
}

#[test]
fn bad_next_back_detected() {
    let it = FrontOnly { next: 0, end: 3 };
    assert!(reltester::iterator(it.clone()).is_ok());
    assert_eq!(double_ended_iterator_interleaved(it.clone(), &[true, true, true]), Ok(()));
    assert_eq!(double_ended_iterator_interleaved(it.clone(), &[false]), Err(IteratorError::BadNextBack));
    assert_eq!(double_ended_iterator_interleaved(it.clone(), &[true, false, true]), Err(IteratorError::BadNextBack));
    let single = FrontOnly { next: 0, end: 1 };
    assert_eq!(double_ended_iterator_interleaved(single, &[false]), Ok(()));
}

/// Yields `0..n` with a size hint, count and last of our choosing.
#[derive(Clone)]
struct Liar {
    next: u32,
    end: u32,
    hint: (usize, Option<usize>),
    count: Option<usize>,
    last: Option<Option<u32>>,
}

impl Liar {
    fn honest(end: u32) -> Liar {
        let n = end as usize;
        Liar { next: 0, end, hint: (n, Some(n)), count: None, last: None }
    }
}

impl Iterator for Liar {
    type Item = u32;
    fn next(&mut self) -> Option<u32> {
        if self.next < self.end {
            self.next += 1;
            Some(self.next - 1)
        } else {
            None
        }
    }
    fn size_hint(&self) -> (usize, Option<usize>) {
        self.hint
    }
    fn count(self) -> usize {
        match self.count {
            Some(c) => c,
            None => (self.end - self.next) as usize,
        }
    }
    fn last(self) -> Option<u32> {
        match self.last {
            Some(l) => l,
            None => if self.next < self.end { Some(self.end - 1) } else { None },
        }
    }
}

impl std::iter::FusedIterator for Liar {}

#[test]
fn bad_size_hint_detected() {
    let mut it = Liar::honest(4);
    assert_eq!(iterator_size_hint(it.clone()), Ok(()));
    it.hint = (5, None);
    assert_eq!(iterator_size_hint(it.clone()), Err(IteratorError::BadSizeHint));
    it.hint = (0, Some(3));
    assert_eq!(iterator_size_hint(it.clone()), Err(IteratorError::BadSizeHint));
    assert_eq!(reltester::iterator(it.clone()), Err(IteratorError::BadSizeHint));
    it.hint = (0, None);
    assert_eq!(iterator_size_hint(it), Ok(()));
}

#[test]
fn bad_count_detected() {
    let mut it = Liar::honest(4);
    assert_eq!(iterator_count(it.clone()), Ok(()));
    it.count = Some(3);
    assert_eq!(iterator_count(it.clone()), Err(IteratorError::BadCount));
    assert_eq!(reltester::iterator(it), Err(IteratorError::BadCount));
}

#[test]
fn bad_last_detected() {
    let mut it = Liar::honest(4);
    assert_eq!(iterator_last(it.clone()), Ok(()));
    it.last = Some(Some(2));
    assert_eq!(iterator_last(it.clone()), Err(IteratorError::BadLast));
    it.last = Some(None);
    assert_eq!(iterator_last(it.clone()), Err(IteratorError::BadLast));
    assert_eq!(reltester::fused_iterator(it), Err(IteratorError::BadLast));
    let mut empty = Liar::honest(0);
    assert_eq!(iterator_last(empty.clone()), Ok(()));
    empty.last = Some(Some(0));
    assert_eq!(iterator_last(empty), Err(IteratorError::BadLast));
}

/// Yields `0..n`, then `None` and `Some` in turn.
#[derive(Clone)]
struct Unfused {
    next: u32,
    end: u32,
    flip: bool,
}

impl Iterator for Unfused {
    type Item = u32;
    fn next(&mut self) -> Option<u32> {
        if self.next < self.end {
            self.next += 1;
            Some(self.next - 1)
        } else {
            self.flip = !self.flip;
            if self.flip { None } else { Some(7) }
        }
    }
}

impl std::iter::FusedIterator for Unfused {}

#[test]
fn unfused_iterator_detected() {
    let it = Unfused { next: 0, end: 2, flip: false };
    assert_eq!(
        fused_iterator_none_forever(it),
        Err(IteratorError::FusedIteratorReturnedSomeAfterExhaustion)
    );
    let empty: Vec<u8> = Vec::new();
    assert_eq!(fused_iterator_none_forever(empty.iter()), Ok(()));
    let v: Vec<u8> = vec![1, 2, 3];
    assert_eq!(fused_iterator_none_forever(v.iter()), Ok(()));
    assert_eq!(reltester::fused_iterator(v.iter().map(|x| x + 1)), Ok(()));
}

#[test]
fn size_hint_matches_values() {
    let empty: Vec<u8> = Vec::new();
    let three: Vec<u8> = vec![1, 2, 3];
    let four: Vec<u8> = vec![1, 2, 3, 4];
    assert_eq!(size_hint_matches(empty.iter(), (0, None)), Ok(()));
    assert_eq!(size_hint_matches(empty.iter(), (0, Some(0))), Ok(()));
    assert_eq!(size_hint_matches(three.iter(), (3, Some(3))), Ok(()));
    assert_eq!(size_hint_matches(four.iter(), (1, Some(5))), Ok(()));
    assert_eq!(size_hint_matches(three.iter(), (4, Some(5))), Err(IteratorError::BadSizeHint));
    assert_eq!(size_hint_matches(three.iter(), (0, Some(2))), Err(IteratorError::BadSizeHint));
    assert_eq!(size_hint_matches(three.iter(), (usize::MAX, None)), Err(IteratorError::BadSizeHint));
    assert_eq!(size_hint_matches(empty.iter(), (1, None)), Err(IteratorError::BadSizeHint));
}

#[test]
fn count_matches_values() {
    let empty: Vec<u8> = Vec::new();
    let three: Vec<u8> = vec![1, 2, 3];
    assert_eq!(count_matches(empty.iter(), 0), Ok(()));
    assert_eq!(count_matches(three.iter(), 3), Ok(()));
    assert_eq!(count_matches(three.iter(), 2), Err(IteratorError::BadCount));
    assert_eq!(count_matches(three.iter(), 4), Err(IteratorError::BadCount));
    assert_eq!(count_matches(empty.iter(), 1), Err(IteratorError::BadCount));
}

#[test]
fn last_matches_values() {
    let empty: Vec<u8> = Vec::new();
    let three: Vec<u8> = vec![1, 2, 3];
    assert_eq!(last_matches(three.iter().cloned(), Some(3)), Ok(()));
    assert_eq!(last_matches(empty.iter().cloned(), None), Ok(()));
    assert_eq!(last_matches(three.iter().cloned(), Some(2)), Err(IteratorError::BadLast));
    assert_eq!(last_matches(three.iter().cloned(), None), Err(IteratorError::BadLast));
    assert_eq!(last_matches(empty.iter().cloned(), Some(1)), Err(IteratorError::BadLast));
    let nans = vec![f64::NAN];
    assert_eq!(last_matches(nans.iter().cloned(), Some(f64::NAN)), Err(IteratorError::BadLast));
}

#[test]
fn iterator_checks_repeatable() {
    let v: Vec<u16> = vec![4, 8, 15, 16, 23, 42];
    assert_eq!(reltester::iterator(v.iter()), reltester::iterator(v.iter()));
    let it = FrontOnly { next: 0, end: 3 };
    let fronts = [true, false];
    assert_eq!(
        double_ended_iterator_interleaved(it.clone(), &fronts),
        double_ended_iterator_interleaved(it, &fronts)
    );
}

#[test]
fn iterator_error_converts_to_umbrella() {
    assert_eq!(Error::from(IteratorError::BadCount), Error::Iterator(IteratorError::BadCount));
}

#[test]
fn next_back_matches_values() {
    let collected: Vec<u8> = vec![1, 2, 3, 4];
    assert_eq!(next_back_matches(&[1u8, 2], &[4, 3], &collected), Ok(()));
    assert_eq!(next_back_matches(&[1u8, 2, 3, 4], &[], &collected), Ok(()));
    assert_eq!(next_back_matches(&[], &[4u8, 3, 2, 1], &collected), Ok(()));
    assert_eq!(next_back_matches::<u8>(&[], &[], &[]), Ok(()));
    assert_eq!(next_back_matches(&[1u8, 2], &[3, 4], &collected), Err(IteratorError::BadNextBack));
    assert_eq!(next_back_matches(&[1u8, 2], &[4], &collected), Err(IteratorError::BadNextBack));
    assert_eq!(next_back_matches(&[1u8, 2, 3], &[4, 4], &collected), Err(IteratorError::BadNextBack));
    assert_eq!(next_back_matches(&[2u8], &[4, 3, 1], &collected), Err(IteratorError::BadNextBack));
    assert_eq!(next_back_matches(&[f64::NAN], &[], &[f64::NAN]), Err(IteratorError::BadNextBack));
}

#[test]
fn fused_verdict_values() {
    assert_eq!(fused_verdict(&[]), Ok(()));
    assert_eq!(fused_verdict(&[false, false, false]), Ok(()));
    assert_eq!(fused_verdict(&[true]), Err(IteratorError::FusedIteratorReturnedSomeAfterExhaustion));
    assert_eq!(
        fused_verdict(&[false, false, true]),
        Err(IteratorError::FusedIteratorReturnedSomeAfterExhaustion)
    );
}
