//! The interrupt channel of a machine.
use vstd::prelude::*;
use std::sync::mpsc::{Sender, Receiver, channel};

verus! {

/// The sending end of a channel, `std::sync::mpsc::Sender`, held opaquely.
#[verifier::external_type_specification]
#[verifier::external_body]
#[verifier::reject_recursive_types(T)]
pub struct ExSender<T>(Sender<T>);

/// The receiving end of a channel, `std::sync::mpsc::Receiver`, held opaquely.
#[verifier::external_type_specification]
#[verifier::external_body]
#[verifier::reject_recursive_types(T)]
pub struct ExReceiver<T>(Receiver<T>);

/// `std::sync::mpsc::channel`: a new channel of interrupt numbers.
#[verifier::external_body]
pub(crate) fn new_channel() -> (Sender<u32>, Receiver<u32>) {
    channel::<u32>()
}

/// `Sender::clone`: a second sender on the same channel.
#[verifier::external_body]
pub(crate) fn sender_clone(s: &Sender<u32>) -> Sender<u32> {
    s.clone()
}

} // verus!
