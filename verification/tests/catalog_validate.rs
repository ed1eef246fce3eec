use time_signal::catalog::{count_matching, validate, ValidationResult};
use time_signal::filenames::canonical_filename;
use time_signal::slots::canonical_slots;

fn full_listing(interval: u8) -> Vec<String> {
    canonical_slots(interval)
        .into_iter()
        .map(|slot| canonical_filename(slot.hour, slot.minute))
        .collect()
}

#[test]
fn absent_directory_is_absent() {
    assert_eq!(validate(&None, 15), ValidationResult::Absent);
}

#[test]
fn complete_listing_is_complete() {
    let names = full_listing(15);
    assert_eq!(names.len(), 96);
    assert_eq!(validate(&Some(names), 15), ValidationResult::Complete);
}

#[test]
fn interval_twenty_with_seventy_matching_files_is_missing() {
    let mut names = full_listing(20);
    assert_eq!(names.len(), 72);
    names.truncate(70);
    assert_eq!(validate(&Some(names), 20), ValidationResult::Missing);
}

#[test]
fn empty_directory_is_missing() {
    assert_eq!(validate(&Some(Vec::new()), 15), ValidationResult::Missing);
}

#[test]
fn non_canonical_names_do_not_count() {
    let mut names = full_listing(20);
    names.pop();
    names.push("71-00.wav".to_string());
    assert_eq!(count_matching(&names), 71);
    assert_eq!(validate(&Some(names), 20), ValidationResult::Missing);
}

#[test]
fn extra_junk_does_not_hide_a_complete_set() {
    let mut names = full_listing(20);
    names.push("notes.txt".to_string());
    names.push("10-00.mp3".to_string());
    assert_eq!(count_matching(&names), 72);
    assert_eq!(validate(&Some(names), 20), ValidationResult::Complete);
}
