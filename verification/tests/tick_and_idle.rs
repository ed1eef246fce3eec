use time_signal::idle::{should_skip, should_skip_sampled};
use time_signal::tick::{cron_line, current_tick, decide_tick, TickAction};

#[test]
fn zero_threshold_never_skips() {
    assert!(!should_skip_sampled(0, Some(0)));
    assert!(!should_skip_sampled(0, Some(10_000)));
    assert!(!should_skip_sampled(0, None));
    assert!(!should_skip(0));
}

#[test]
fn threshold_ten_skips_at_fifteen_but_not_at_five() {
    assert!(should_skip_sampled(10, Some(15)));
    assert!(!should_skip_sampled(10, Some(5)));
    assert!(should_skip_sampled(10, Some(10)));
}

#[test]
fn failed_idle_sample_counts_as_not_idle() {
    assert!(!should_skip_sampled(10, None));
}

#[test]
fn tick_at_ten_forty_seven_plays_ten_forty_five() {
    let action = decide_tick(10, 47, 15, 10, Some(5));
    match action {
        TickAction::Play { path } => assert_eq!(path, "voice_files/10-45.wav"),
        TickAction::Skip => panic!("tick was skipped"),
    }
}

#[test]
fn idle_tick_is_skipped() {
    let action = decide_tick(10, 47, 15, 10, Some(15));
    assert_eq!(action, TickAction::Skip);
}

#[test]
fn every_minute_of_the_hour_resolves_to_its_slot_file() {
    for minute in 0u8..60 {
        let action = decide_tick(7, minute, 20, 10, None);
        let expected = format!("voice_files/07-{:02}.wav", minute / 20 * 20);
        match action {
            TickAction::Play { path } => assert_eq!(path, expected),
            TickAction::Skip => panic!("an absent idle sample must not skip"),
        }
    }
}

#[test]
fn current_tick_with_zero_threshold_names_an_on_grid_asset() {
    let (slot, action) = current_tick(15, 0);
    assert!(slot.hour < 24);
    assert!(slot.minute < 60);
    assert_eq!(slot.minute % 15, 0);
    match action {
        TickAction::Play { path } => {
            let expected = format!("voice_files/{:02}-{:02}.wav", slot.hour, slot.minute);
            assert_eq!(path, expected);
        },
        TickAction::Skip => panic!("zero threshold must not skip"),
    }
}

#[test]
fn cron_line_fires_every_interval() {
    assert_eq!(cron_line(15), "0 */15 * * * *");
    assert_eq!(cron_line(1), "0 */1 * * * *");
    assert_eq!(cron_line(60), "0 */60 * * * *");
}
