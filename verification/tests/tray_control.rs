use std::sync::mpsc;
use time_signal::endpoints::{
    initialize_endpoint, is_initialized_endpoint, multi_synthesis_endpoint,
};
use time_signal::tray::{run_tray, Message, Shutdown};

#[test]
fn quit_signal_ends_the_run_as_requested() {
    let (tx, rx) = mpsc::sync_channel(1);
    tx.send(Message::Quit).unwrap();
    assert_eq!(run_tray(&rx), Shutdown::Requested);
}

#[test]
fn closed_channel_ends_the_run_too() {
    let (tx, rx) = mpsc::sync_channel::<Message>(1);
    drop(tx);
    assert_eq!(run_tray(&rx), Shutdown::ChannelClosed);
}

#[test]
fn speaker_endpoints_carry_the_style_id() {
    assert_eq!(is_initialized_endpoint(2), "is_initialized_speaker?speaker=2");
    assert_eq!(is_initialized_endpoint(888_753_760), "is_initialized_speaker?speaker=888753760");
    assert_eq!(initialize_endpoint(2), "initialize_speaker?speaker=2&skip_reinit=true");
    assert_eq!(multi_synthesis_endpoint(47), "multi_synthesis?speaker=47");
}
