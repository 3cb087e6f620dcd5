//! The bounded outbound channels that carry messages toward subscribers.
//! The channel type and the one operation the core needs — a non-blocking
//! send — come from an outside crate and are taken on trust.
use vstd::prelude::*;
use crate::msg::Message;

verus! {

/// Relies on `futures::channel::mpsc::Sender` being an ordinary generic
/// struct; a value of it is carried through opaquely.
#[verifier::external_type_specification]
#[verifier::external_body]
#[verifier::reject_recursive_types(T)]
pub struct ExSender<T>(futures::channel::mpsc::Sender<T>);

/// Relies on `futures::channel::mpsc::Sender::try_send`: the message is
/// enqueued and `Ok` returned when the channel has a free slot, and the
/// attempt returns at once without it when the channel is full or closed.
/// Whether a slot is free depends on the receiving task, so nothing is
/// assumed of the outcome.
#[verifier::external_body]
pub(crate) fn try_send_message(s: &mut futures::channel::mpsc::Sender<Message>, m: Message) -> (delivered: bool) {
    s.try_send(m).is_ok()
}

} // verus!
