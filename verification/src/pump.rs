//! The subscription pump's state: one per subscription, owned by the task
//! that drives that subscription's events into the client sink.
//!
//! The pump wraps the translator with a stop flag: once the remote consumer
//! is gone (or the stream is finished), no further status is translated and
//! nothing more is offered for delivery.  Each pump is an independent value,
//! so stopping one subscription cannot touch another's state.

use vstd::prelude::*;

use crate::event::{ClientEvent, RawStatus};
use crate::translator::{event_for, next_broadcasted, TransactionState};

verus! {

/// Per-subscription pump state: the translator for this transaction and
/// whether delivery has stopped.
#[derive(Debug, Clone, Copy, PartialEq, Eq, Structural)]
pub struct SubscriptionPump {
    /// The cross-event state of this subscription's translator.
    pub translator: TransactionState,
    /// True once delivery has stopped; it never falls back to false.
    pub stopped: bool,
}

impl SubscriptionPump {
    /// A pump for a fresh subscription: running, with a fresh translator.
    pub fn new() -> (r: Self)
        ensures
            !r.stopped,
            !r.translator.broadcasted,
    {
        SubscriptionPump { translator: TransactionState::new(), stopped: false }
    }

    /// One raw status arrived from the pool: translate it into the event to
    /// hand to the sink, or yield nothing if delivery has already stopped.
    ///
    /// A stopped pump stays stopped and untouched; a running pump stays
    /// running, advances its translator, and always yields exactly one event.
    pub fn next_event<Hash, BlockHash>(&mut self, status: RawStatus<Hash, BlockHash>) -> (r:
        Option<ClientEvent<BlockHash>>)
        ensures
            final(self).stopped == old(self).stopped,
            old(self).stopped ==> r is None && final(self).translator == old(self).translator,
            !old(self).stopped ==> final(self).translator.broadcasted == next_broadcasted(
                old(self).translator.broadcasted,
                status,
            ) && (r matches Some(ev) && ev@ == event_for(old(self).translator.broadcasted, status)),
    {
        if self.stopped {
            None
        } else {
            self.translator.handle_event(status)
        }
    }

    /// The sink reported the remote consumer gone, or the status stream
    /// ended: stop delivery for this subscription for good.
    pub fn stop(&mut self)
        ensures
            final(self).stopped,
            final(self).translator == old(self).translator,
    {
        self.stopped = true;
    }
}

} // verus!
