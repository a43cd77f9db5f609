//! The status translator: a per-subscription state machine that turns each
//! raw pool status into exactly one client event, tracking across events
//! whether the transaction was ever announced to a peer.

use vstd::prelude::*;

use crate::event::{
    dropped_reason, dropped_text, finality_timeout_reason, finality_timeout_text, invalid_reason,
    invalid_text, usurped_reason, usurped_text, views_of, BlockRef, ClientEvent, EventModel,
    RawStatus,
};

verus! {

/// Whether a raw status is a broadcast that reached at least one peer: the
/// only status that can raise the `broadcasted` flag.
pub open spec fn is_nonempty_broadcast<Hash, BlockHash>(s: RawStatus<Hash, BlockHash>) -> bool {
    match s {
        RawStatus::Broadcast(peers) => peers@.len() > 0,
        _ => false,
    }
}

/// The `broadcasted` flag after one raw status has been handled, given its
/// value before: it rises on a broadcast to at least one peer and never falls.
pub open spec fn next_broadcasted<Hash, BlockHash>(
    b: bool,
    s: RawStatus<Hash, BlockHash>,
) -> bool {
    b || is_nonempty_broadcast(s)
}

/// The one client event emitted for a raw status, given the `broadcasted`
/// flag before that status is handled.  Every raw status yields exactly one
/// event: the mapping is total and never suppresses a status.
pub open spec fn event_for<Hash, BlockHash>(b: bool, s: RawStatus<Hash, BlockHash>) -> EventModel<
    BlockHash,
> {
    match s {
        RawStatus::Ready => EventModel::Validated,
        RawStatus::Future => EventModel::Validated,
        RawStatus::Broadcast(peers) => EventModel::Broadcasted { peer_count: peers@.len() },
        RawStatus::InBlock((hash, index)) => EventModel::BestChainBlockIncluded(
            Some(BlockRef { hash, index }),
        ),
        RawStatus::Retracted(_) => EventModel::BestChainBlockIncluded(None),
        RawStatus::FinalityTimeout(_) => EventModel::Dropped {
            was_broadcasted: b,
            reason: finality_timeout_reason(),
        },
        RawStatus::Finalized((hash, index)) => EventModel::Finalized(BlockRef { hash, index }),
        RawStatus::Usurped(_) => EventModel::Invalid { reason: usurped_reason() },
        RawStatus::Dropped => EventModel::Invalid { reason: dropped_reason() },
        RawStatus::Invalid => EventModel::Invalid { reason: invalid_reason() },
    }
}

/// The `broadcasted` flag after a whole sequence of raw statuses has been
/// handled in order, starting from flag value `b`.
pub open spec fn state_after<Hash, BlockHash>(
    b: bool,
    statuses: Seq<RawStatus<Hash, BlockHash>>,
) -> bool
    decreases statuses.len(),
{
    if statuses.len() == 0 {
        b
    } else {
        state_after(next_broadcasted(b, statuses[0]), statuses.drop_first())
    }
}

/// The client events emitted for a whole sequence of raw statuses handled in
/// order, starting from flag value `b`.
pub open spec fn events_for<Hash, BlockHash>(
    b: bool,
    statuses: Seq<RawStatus<Hash, BlockHash>>,
) -> Seq<EventModel<BlockHash>>
    decreases statuses.len(),
{
    if statuses.len() == 0 {
        Seq::empty()
    } else {
        seq![event_for(b, statuses[0])] + events_for(
            next_broadcasted(b, statuses[0]),
            statuses.drop_first(),
        )
    }
}

/// Handling one more status at the end of a sequence: the flag after the
/// longer sequence is the flag after the shorter one, advanced by the last
/// status.
pub proof fn lemma_state_after_push<Hash, BlockHash>(
    b: bool,
    statuses: Seq<RawStatus<Hash, BlockHash>>,
    s: RawStatus<Hash, BlockHash>,
)
    ensures
        state_after(b, statuses.push(s)) == next_broadcasted(state_after(b, statuses), s),
    decreases statuses.len(),
{
    if statuses.len() == 0 {
        let rest = statuses.push(s).drop_first();
        assert(statuses.push(s)[0] == s);
        assert(rest =~= Seq::<RawStatus<Hash, BlockHash>>::empty());
        assert(state_after(b, statuses.push(s)) == state_after(next_broadcasted(b, s), rest));
        assert(state_after(next_broadcasted(b, s), rest) == next_broadcasted(b, s));
        assert(state_after(b, statuses) == b);
    } else {
        assert(statuses.push(s)[0] == statuses[0]);
        assert(statuses.push(s).drop_first() =~= statuses.drop_first().push(s));
        lemma_state_after_push(next_broadcasted(b, statuses[0]), statuses.drop_first(), s);
        assert(state_after(b, statuses.push(s)) == state_after(
            next_broadcasted(b, statuses[0]),
            statuses.drop_first().push(s),
        ));
        assert(state_after(b, statuses) == state_after(
            next_broadcasted(b, statuses[0]),
            statuses.drop_first(),
        ));
    }
}

/// Handling one more status at the end of a sequence appends exactly one
/// event: the one the last status maps to under the flag reached so far.
pub proof fn lemma_events_for_push<Hash, BlockHash>(
    b: bool,
    statuses: Seq<RawStatus<Hash, BlockHash>>,
    s: RawStatus<Hash, BlockHash>,
)
    ensures
        events_for(b, statuses.push(s)) == events_for(b, statuses).push(
            event_for(state_after(b, statuses), s),
        ),
    decreases statuses.len(),
{
    if statuses.len() == 0 {
        let rest = statuses.push(s).drop_first();
        assert(statuses.push(s)[0] == s);
        assert(rest =~= Seq::<RawStatus<Hash, BlockHash>>::empty());
        assert(events_for(b, statuses.push(s)) == seq![event_for(b, s)] + events_for(
            next_broadcasted(b, s),
            rest,
        ));
        assert(events_for(next_broadcasted(b, s), rest) =~= Seq::<EventModel<BlockHash>>::empty());
        assert(events_for(b, statuses) =~= Seq::<EventModel<BlockHash>>::empty());
        assert(state_after(b, statuses) == b);
        assert(events_for(b, statuses.push(s)) =~= events_for(b, statuses).push(
            event_for(state_after(b, statuses), s),
        ));
    } else {
        let b1 = next_broadcasted(b, statuses[0]);
        assert(statuses.push(s)[0] == statuses[0]);
        assert(statuses.push(s).drop_first() =~= statuses.drop_first().push(s));
        lemma_events_for_push(b1, statuses.drop_first(), s);
        lemma_state_after_push(b, statuses, s);
        assert(events_for(b, statuses.push(s)) == seq![event_for(b, statuses[0])] + events_for(
            b1,
            statuses.drop_first().push(s),
        ));
        assert(events_for(b, statuses) == seq![event_for(b, statuses[0])] + events_for(
            b1,
            statuses.drop_first(),
        ));
        assert(state_after(b, statuses) == state_after(b1, statuses.drop_first()));
        assert(events_for(b, statuses.push(s)) =~= events_for(b, statuses).push(
            event_for(state_after(b, statuses), s),
        ));
    }
}

/// Translation is total: a sequence of raw statuses yields exactly as many
/// client events as there were statuses, whatever the starting flag.
pub proof fn lemma_translation_total<Hash, BlockHash>(
    b: bool,
    statuses: Seq<RawStatus<Hash, BlockHash>>,
)
    ensures
        events_for(b, statuses).len() == statuses.len(),
    decreases statuses.len(),
{
    if statuses.len() > 0 {
        lemma_translation_total(next_broadcasted(b, statuses[0]), statuses.drop_first());
    }
}

/// Once the `broadcasted` flag is true it stays true, whatever statuses
/// follow.
pub proof fn lemma_broadcasted_monotone<Hash, BlockHash>(
    statuses: Seq<RawStatus<Hash, BlockHash>>,
)
    ensures
        state_after(true, statuses),
    decreases statuses.len(),
{
    if statuses.len() > 0 {
        lemma_broadcasted_monotone(statuses.drop_first());
    }
}

/// The `broadcasted` flag is true after a sequence of statuses exactly when
/// it was already true before, or some status in the sequence was a broadcast
/// that reached at least one peer: nothing else raises it, and nothing resets
/// it.
pub proof fn lemma_broadcasted_cause<Hash, BlockHash>(
    b: bool,
    statuses: Seq<RawStatus<Hash, BlockHash>>,
)
    ensures
        state_after(b, statuses) <==> (b || exists|i: int|
            0 <= i < statuses.len() && is_nonempty_broadcast(#[trigger] statuses[i])),
    decreases statuses.len(),
{
    if statuses.len() > 0 {
        let tail = statuses.drop_first();
        let b1 = next_broadcasted(b, statuses[0]);
        lemma_broadcasted_cause(b1, tail);
        if state_after(b, statuses) && !b {
            if is_nonempty_broadcast(statuses[0]) {
                assert(is_nonempty_broadcast(statuses[0]));
            } else {
                let j = choose|j: int|
                    0 <= j < tail.len() && is_nonempty_broadcast(#[trigger] tail[j]);
                assert(tail[j] == statuses[j + 1]);
            }
        }
        if exists|i: int|
            0 <= i < statuses.len() && is_nonempty_broadcast(#[trigger] statuses[i]) {
            let i = choose|i: int|
                0 <= i < statuses.len() && is_nonempty_broadcast(#[trigger] statuses[i]);
            if i == 0 {
                assert(b1);
            } else {
                assert(tail[i - 1] == statuses[i]);
            }
        }
    }
}

/// Order preservation: the event at each position of the translated sequence
/// is exactly what the raw status at that position maps to under the flag
/// reached by the statuses before it.  No event is reordered, dropped or
/// invented.
pub proof fn lemma_order_preserved<Hash, BlockHash>(
    b: bool,
    statuses: Seq<RawStatus<Hash, BlockHash>>,
    i: int,
)
    requires
        0 <= i < statuses.len(),
    ensures
        events_for(b, statuses).len() == statuses.len(),
        events_for(b, statuses)[i] == event_for(state_after(b, statuses.take(i)), statuses[i]),
    decreases i,
{
    lemma_translation_total(b, statuses);
    let tail = statuses.drop_first();
    let b1 = next_broadcasted(b, statuses[0]);
    if i == 0 {
        assert(statuses.take(0) =~= Seq::<RawStatus<Hash, BlockHash>>::empty());
        assert(events_for(b, statuses)[0] == event_for(b, statuses[0]));
    } else {
        lemma_order_preserved(b1, tail, i - 1);
        assert(events_for(b, statuses)[i] == events_for(b1, tail)[i - 1]);
        assert(tail.take(i - 1) =~= statuses.take(i).drop_first());
        assert(statuses.take(i)[0] == statuses[0]);
        assert(state_after(b, statuses.take(i)) == state_after(b1, tail.take(i - 1)));
        assert(tail[i - 1] == statuses[i]);
    }
}

/// The per-subscription state the translator carries between events.
///
/// Exactly one instance exists per subscription; it is owned by the task
/// pumping that subscription and never shared.
#[derive(Debug, Clone, Copy, PartialEq, Eq, Structural)]
pub struct TransactionState {
    /// True once the transaction was announced to at least one peer; never
    /// reset for the rest of the subscription.
    pub broadcasted: bool,
}

impl TransactionState {
    /// Construct a fresh translator state: the transaction has not been
    /// broadcast yet.
    pub fn new() -> (r: Self)
        ensures
            !r.broadcasted,
    {
        TransactionState { broadcasted: false }
    }

    /// Handle one raw status from the transaction pool and emit the client
    /// event it maps to.
    ///
    /// The mapping is total: the result is always `Some`.  The `Option` is
    /// kept so a future filtering rule (say, deduplication of consecutive
    /// identical events) could suppress an event without changing callers.
    pub fn handle_event<Hash, BlockHash>(&mut self, event: RawStatus<Hash, BlockHash>) -> (r:
        Option<ClientEvent<BlockHash>>)
        ensures
            final(self).broadcasted == next_broadcasted(old(self).broadcasted, event),
            r matches Some(ev) && ev@ == event_for(old(self).broadcasted, event),
    {
        match event {
            RawStatus::Ready | RawStatus::Future => Some(ClientEvent::Validated),
            RawStatus::Broadcast(peers) => {
                // Raise the flag once the transaction reached at least one peer.
                self.broadcasted = self.broadcasted || !peers.is_empty();
                Some(ClientEvent::Broadcasted { peer_count: peers.len() })
            },
            RawStatus::InBlock((hash, index)) => Some(
                ClientEvent::BestChainBlockIncluded(Some(BlockRef { hash, index })),
            ),
            RawStatus::Retracted(_) => Some(ClientEvent::BestChainBlockIncluded(None)),
            RawStatus::FinalityTimeout(_) => Some(
                ClientEvent::Dropped {
                    was_broadcasted: self.broadcasted,
                    reason: finality_timeout_text(),
                },
            ),
            RawStatus::Finalized((hash, index)) => Some(
                ClientEvent::Finalized(BlockRef { hash, index }),
            ),
            RawStatus::Usurped(_) => Some(ClientEvent::Invalid { reason: usurped_text() }),
            RawStatus::Dropped => Some(ClientEvent::Invalid { reason: dropped_text() }),
            RawStatus::Invalid => Some(ClientEvent::Invalid { reason: invalid_text() }),
        }
    }

    /// Handle a finished sequence of raw statuses in arrival order and return
    /// the client events they map to, in the same order: one event per status,
    /// none reordered, dropped or invented.
    pub fn handle_events<Hash, BlockHash>(
        &mut self,
        statuses: Vec<RawStatus<Hash, BlockHash>>,
    ) -> (r: Vec<ClientEvent<BlockHash>>)
        ensures
            views_of(r@) == events_for(old(self).broadcasted, statuses@),
            final(self).broadcasted == state_after(old(self).broadcasted, statuses@),
            r@.len() == statuses@.len(),
    {
        let ghost all = statuses@;
        let ghost b0 = self.broadcasted;
        let mut pending = statuses;
        let mut out: Vec<ClientEvent<BlockHash>> = Vec::new();
        let ghost mut done: Seq<RawStatus<Hash, BlockHash>> = Seq::empty();
        proof {
            assert(done + pending@ =~= all);
            assert(views_of(out@) =~= events_for(b0, done));
        }
        while pending.len() > 0
            invariant
                done + pending@ == all,
                views_of(out@) == events_for(b0, done),
                self.broadcasted == state_after(b0, done),
                out@.len() == done.len(),
            decreases pending@.len(),
        {
            let ghost before = pending@;
            let s = pending.remove(0);
            proof {
                lemma_state_after_push(b0, done, s);
                lemma_events_for_push(b0, done, s);
            }
            let event = self.handle_event(s);
            match event {
                Some(e) => out.push(e),
                None => (),
            }
            proof {
                done = done.push(s);
                assert(before =~= seq![s] + pending@);
                assert(done + pending@ =~= all);
                assert(views_of(out@) =~= events_for(b0, done));
            }
        }
        proof {
            assert(done =~= all);
            lemma_translation_total(b0, all);
        }
        out
    }
}

} // verus!
