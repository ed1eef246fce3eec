use time_signal::catalog::expected_file_count;
use time_signal::slots::{canonical_slots, minutes_per_hour, resolve_slot, validate_interval};

#[test]
fn slot_count_matches_formula_for_all_intervals() {
    for interval in 1u8..=60 {
        let slots = canonical_slots(interval);
        let expected = 24 * ((59 / interval as usize) + 1);
        assert_eq!(slots.len(), expected);
    }
}

#[test]
fn slots_are_strictly_ordered_by_hour_then_minute() {
    for interval in [1u8, 7, 15, 20, 59, 60] {
        let slots = canonical_slots(interval);
        for w in slots.windows(2) {
            let earlier = (w[0].hour, w[0].minute);
            let later = (w[1].hour, w[1].minute);
            assert!(earlier < later, "interval {}: {:?} !< {:?}", interval, earlier, later);
        }
    }
}

#[test]
fn interval_fifteen_has_ninety_six_slots() {
    let slots = canonical_slots(15);
    assert_eq!(slots.len(), 96);
    assert_eq!((slots[0].hour, slots[0].minute), (0, 0));
    assert_eq!((slots[95].hour, slots[95].minute), (23, 45));
}

#[test]
fn interval_twenty_minutes_per_hour() {
    assert_eq!(minutes_per_hour(20), vec![0, 20, 40]);
    assert_eq!(expected_file_count(20), 72);
}

#[test]
fn interval_sixty_has_one_slot_per_hour() {
    assert_eq!(minutes_per_hour(60), vec![0]);
    assert_eq!(canonical_slots(60).len(), 24);
}

#[test]
fn tick_resolution_rounds_down() {
    let slot = resolve_slot(10, 47, 15);
    assert_eq!((slot.hour, slot.minute), (10, 45));
}

#[test]
fn tick_resolution_is_idempotent_and_monotonic() {
    for interval in [1u8, 7, 15, 20, 59, 60] {
        let mut last = 0u8;
        for m in 0u8..60 {
            let once = resolve_slot(0, m, interval).minute;
            let twice = resolve_slot(0, once, interval).minute;
            assert_eq!(once, twice);
            assert!(once >= last);
            last = once;
        }
    }
}

#[test]
fn interval_validation_accepts_one_through_sixty() {
    assert!(validate_interval(0).is_err());
    assert!(validate_interval(1).is_ok());
    assert!(validate_interval(15).is_ok());
    assert!(validate_interval(60).is_ok());
    assert!(validate_interval(61).is_err());
    assert!(validate_interval(255).is_err());
}
