use time_signal::text::slot_text;

#[test]
fn hour_zero_uses_its_own_numeral() {
    assert_eq!(slot_text(0, 0), "零時です");
    assert_eq!(slot_text(0, 30), "零時30分です");
}

#[test]
fn on_the_hour_omits_the_minute() {
    assert_eq!(slot_text(1, 0), "1時です");
    assert_eq!(slot_text(23, 0), "23時です");
}

#[test]
fn off_the_hour_reads_hour_and_minute() {
    assert_eq!(slot_text(10, 45), "10時45分です");
    assert_eq!(slot_text(1, 5), "1時5分です");
    assert_eq!(slot_text(12, 1), "12時1分です");
}
