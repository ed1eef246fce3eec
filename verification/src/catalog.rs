//! Validation of the asset directory: a complete set holds one canonical
//! file name per slot of the configured interval.

use vstd::prelude::*;
use crate::filenames::{is_slot_filename, parse_filename};
use crate::slots::{slots_per_hour, valid_interval};

verus! {

/// The outcome of checking the asset directory against the canonical slot
/// set of the configured interval.
#[derive(Clone, Copy, Debug, PartialEq, Eq, Structural)]
pub enum ValidationResult {
    /// The directory holds at least as many canonical names as there are
    /// slots.
    Complete,
    /// The directory exists but holds fewer canonical names than slots.
    Missing,
    /// The directory does not exist.
    Absent,
}

/// How many of the listed names are canonical slot file names.
pub open spec fn matching_count(names: Seq<Seq<char>>) -> int
    decreases names.len(),
{
    if names.len() == 0 {
        0
    } else {
        matching_count(names.drop_last()) + if is_slot_filename(names.last()) {
            1int
        } else {
            0int
        }
    }
}

/// The number of asset files a complete set holds: one per slot of the day.
pub fn expected_file_count(interval: u8) -> (n: usize)
    requires
        valid_interval(interval as int),
    ensures
        n == 24 * slots_per_hour(interval as int),
{
    24 * (59 / interval as usize + 1)
}

/// Counts the canonical slot file names among a directory listing; names of
/// any other shape do not count.
pub fn count_matching(names: &Vec<String>) -> (n: usize)
    ensures
        n == matching_count(names.deep_view()),
{
    let ghost all = names.deep_view();
    let mut n: usize = 0;
    let mut i: usize = 0;
    while i < names.len()
        invariant
            all == names.deep_view(),
            i <= names@.len(),
            all.len() == names@.len(),
            n <= i,
            n == matching_count(all.take(i as int)),
        decreases names@.len() - i as int,
    {
        proof {
            assert(all.take(i as int + 1).drop_last() =~= all.take(i as int));
            assert(all.take(i as int + 1).last() == all[i as int]);
            assert(all[i as int] == names@[i as int]@);
        }
        let is_match = match parse_filename(names[i].as_str()) {
            Some(_) => true,
            None => false,
        };
        if is_match {
            n = n + 1;
        }
        i = i + 1;
    }
    proof {
        assert(all.take(names@.len() as int) =~= all);
    }
    n
}

/// Validates a directory listing against the canonical slot set: `Absent`
/// when the directory does not exist, `Missing` when it exists but holds
/// fewer canonical names than the interval's slot count, `Complete`
/// otherwise.
pub fn validate(listing: &Option<Vec<String>>, interval: u8) -> (r: ValidationResult)
    requires
        valid_interval(interval as int),
    ensures
        match listing {
            None => r == ValidationResult::Absent,
            Some(names) => r == (if matching_count(names.deep_view()) < 24 * slots_per_hour(
                interval as int,
            ) {
                ValidationResult::Missing
            } else {
                ValidationResult::Complete
            }),
        },
{
    match listing {
        None => ValidationResult::Absent,
        Some(names) => {
            let found = count_matching(names);
            let expected = expected_file_count(interval);
            if found < expected {
                ValidationResult::Missing
            } else {
                ValidationResult::Complete
            }
        },
    }
}

} // verus!
