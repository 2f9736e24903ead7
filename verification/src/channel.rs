//! Trusted surface over `crossbeam_channel`: the non-blocking channels that
//! carry display frames from the emulation core to the framebuffer
//! dispatcher, and emulator commands from the input translator to the core.
//!
//! A channel's contents are changed concurrently by the far endpoint, so no
//! contract here pins what a receive returns or whether a send is accepted;
//! the verified logic states what it does with every value that comes out.

use vstd::prelude::*;

verus! {

/// The sending endpoint of a `crossbeam_channel` channel.
#[verifier::external_type_specification]
#[verifier::external_body]
#[verifier::reject_recursive_types(T)]
pub struct ExSender<T>(crossbeam_channel::Sender<T>);

/// The receiving endpoint of a `crossbeam_channel` channel.
#[verifier::external_type_specification]
#[verifier::external_body]
#[verifier::reject_recursive_types(T)]
pub struct ExReceiver<T>(crossbeam_channel::Receiver<T>);

/// Relies on `crossbeam_channel::Sender::send`: enqueues the message unless
/// every receiver has been dropped. Delivery is best-effort for this bridge;
/// a failed send is ignored, as the command intake it feeds is advisory.
#[verifier::external_body]
pub fn channel_send<T>(sender: &crossbeam_channel::Sender<T>, msg: T) {
    let _ = sender.send(msg);
}

/// Relies on `crossbeam_channel::Receiver::try_iter`: yields, without ever
/// blocking, the messages pending in the channel, in the order they were
/// sent; collected here into a vector.
#[verifier::external_body]
pub fn channel_drain<T>(receiver: &crossbeam_channel::Receiver<T>) -> Vec<T> {
    receiver.try_iter().collect()
}

} // verus!
