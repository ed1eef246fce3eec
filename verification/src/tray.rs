//! The control loop behind the tray icon: the quit action sends one signal
//! through a capacity-one channel, and the loop treats a closed channel
//! exactly as a quit.

use vstd::prelude::*;

verus! {

/// The one signal the tray can send.
#[derive(Clone, Copy, Debug, PartialEq, Eq, Structural)]
pub enum Message {
    Quit,
}

/// Why the control loop ended.
#[derive(Clone, Copy, Debug, PartialEq, Eq, Structural)]
pub enum Shutdown {
    /// The quit action was chosen.
    Requested,
    /// The signal channel closed with every sender gone.
    ChannelClosed,
}

#[verifier::external_type_specification]
#[verifier::external_body]
#[verifier::reject_recursive_types(T)]
pub struct ExReceiver<T>(std::sync::mpsc::Receiver<T>);

#[verifier::external_type_specification]
#[verifier::external_body]
pub struct ExRecvError(std::sync::mpsc::RecvError);

/// Relies on std::sync::mpsc::Receiver::recv: it blocks until a message
/// arrives or every sender is gone; which of the two happens depends on
/// the peer, so nothing is promised of it.
#[verifier::external_body]
fn recv_message(rx: &std::sync::mpsc::Receiver<Message>) -> (r: Result<
    Message,
    std::sync::mpsc::RecvError,
>) {
    rx.recv()
}

/// Blocks on the signal channel until the run ends: a received quit signal
/// ends it as requested, and a closed channel ends it the same way.  The
/// function returns only when one of the two has happened.
pub fn run_tray(rx: &std::sync::mpsc::Receiver<Message>) -> (r: Shutdown)
    ensures
        r is Requested || r is ChannelClosed,
{
    match recv_message(rx) {
        Ok(Message::Quit) => Shutdown::Requested,
        Err(_) => Shutdown::ChannelClosed,
    }
}

} // verus!
