//! The event publisher: hands flushed events to the consumer without ever
//! letting a slow or absent consumer stall the read loop.
//!
//! Delivery is best effort and non-blocking from the producer's side: when
//! the consumer's channel is full or closed, the attempt is dropped — never
//! retried, never fatal to the connection.
use vstd::prelude::*;

use crate::pending::OutboundEvent;

verus! {

/// Declares `async_channel::Sender` so a sender can stand in fields and
/// signatures here; the value is opaque and only the wrapper below touches
/// it.
#[verifier::external_type_specification]
#[verifier::external_body]
#[verifier::reject_recursive_types(T)]
pub struct ExSender<T>(async_channel::Sender<T>);

/// Relies on `async_channel::Sender::try_send`: it places the message in
/// the channel and returns `Ok`, or returns the message in an error when
/// the channel is full or closed; it never blocks.  Whether it succeeds
/// depends on the consumer, so nothing is promised of the result.
#[verifier::external_body]
fn try_send_event(sender: &async_channel::Sender<OutboundEvent>, ev: OutboundEvent) -> (delivered:
    bool) {
    sender.try_send(ev).is_ok()
}

/// The producer's handle on the consumer channel.
pub struct Publisher {
    sender: async_channel::Sender<OutboundEvent>,
}

impl Publisher {
    /// Wrap the producing side of the consumer's channel.
    pub fn new(sender: async_channel::Sender<OutboundEvent>) -> Publisher {
        Publisher { sender }
    }

    /// Offer one event to the consumer.  The result reports whether the
    /// channel accepted it; a refusal is absorbed here, by design, so the
    /// caller's read loop stays alive whatever the consumer does.
    pub fn publish(&self, ev: OutboundEvent) -> (delivered: bool) {
        try_send_event(&self.sender, ev)
    }

    /// Offer a flushed batch to the consumer, in order, one attempt per
    /// event; report how many the channel accepted.
    pub fn publish_all(&self, evs: Vec<OutboundEvent>) -> (delivered: usize)
        ensures
            delivered <= evs@.len(),
    {
        let total = evs.len();
        let mut rest = evs;
        let mut delivered: usize = 0;
        // Deliver from the front so flush order is preserved on the wire.
        while rest.len() > 0
            invariant
                total == evs@.len(),
                delivered + rest@.len() <= total,
            decreases rest@.len(),
        {
            let ev = rest.remove(0);
            if self.publish(ev) {
                delivered = delivered + 1;
            }
        }
        delivered
    }
}

} // verus!
