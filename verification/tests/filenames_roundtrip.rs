use time_signal::filenames::{canonical_filename, parse_filename, voice_path};
use time_signal::slots::canonical_slots;

#[test]
fn filename_is_zero_padded() {
    assert_eq!(canonical_filename(0, 0), "00-00.wav");
    assert_eq!(canonical_filename(9, 5), "09-05.wav");
    assert_eq!(canonical_filename(23, 45), "23-45.wav");
}

#[test]
fn voice_path_prefixes_directory() {
    assert_eq!(voice_path(10, 45), "voice_files/10-45.wav");
    assert_eq!(voice_path(0, 0), "voice_files/00-00.wav");
}

#[test]
fn every_canonical_slot_round_trips() {
    for slot in canonical_slots(1) {
        let name = canonical_filename(slot.hour, slot.minute);
        let parsed = parse_filename(&name);
        assert_eq!(parsed, Some((slot.hour, slot.minute)), "name {}", name);
    }
}

#[test]
fn parse_accepts_only_canonical_names() {
    assert_eq!(parse_filename("00-00.wav"), Some((0, 0)));
    assert_eq!(parse_filename("23-59.wav"), Some((23, 59)));
    assert_eq!(parse_filename("24-00.wav"), None);
    assert_eq!(parse_filename("10-60.wav"), None);
    assert_eq!(parse_filename("1-00.wav"), None);
    assert_eq!(parse_filename("10-00.mp3"), None);
    assert_eq!(parse_filename("10-00.wavx"), None);
    assert_eq!(parse_filename("aa-bb.wav"), None);
    assert_eq!(parse_filename(""), None);
    assert_eq!(parse_filename("10:00.wav"), None);
}
