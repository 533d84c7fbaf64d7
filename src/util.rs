use vstd::prelude::*;

use std::sync::mpsc::{Receiver, TryRecvError};

verus! {

/// A receiving end of a std channel, carried through unread.
#[verifier::external_type_specification]
#[verifier::external_body]
#[verifier::reject_recursive_types(T)]
pub struct ExReceiver<T>(Receiver<T>);

/// What a look at a channel found.
#[derive(Clone, Copy, Debug, PartialEq, Eq, Structural)]
pub enum ChannelState {
    /// A message was waiting.
    Message,
    /// Nothing was waiting and senders remain.
    Empty,
    /// Every sender is gone.
    Disconnected,
}

/// Relies on std::sync::mpsc::Receiver::try_recv, which does not block: a
/// message, or an error saying that the channel is empty or disconnected.
#[verifier::external_body]
fn look_at_channel(rx: &Receiver<()>) -> (r: ChannelState) {
    match rx.try_recv() {
        Ok(_) => ChannelState::Message,
        Err(TryRecvError::Empty) => ChannelState::Empty,
        Err(TryRecvError::Disconnected) => ChannelState::Disconnected,
    }
}

/// A termination signal counts as given once a message came or every
/// sender is gone.
pub fn stop_requested(state: ChannelState) -> (r: bool)
    ensures
        r == (state != ChannelState::Empty),
{
    match state {
        ChannelState::Empty => false,
        _ => true,
    }
}

/// Whether termination was signalled on the channel, without blocking;
/// what the channel held is read by `stop_requested`.
pub fn should_stop(rx: &Receiver<()>) -> bool {
    let state = look_at_channel(rx);
    stop_requested(state)
}

} // verus!
