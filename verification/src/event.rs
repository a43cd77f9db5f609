//! The event taxonomy: raw statuses as the transaction pool reports them, and
//! the coarser, stable vocabulary of events shown to clients.

use vstd::prelude::*;

verus! {

/// Where a transaction landed: a block's hash and the transaction's index
/// within that block.
#[derive(Debug, Clone, Copy, PartialEq, Eq)]
pub struct BlockRef<BlockHash> {
    /// Hash of the block holding the transaction.
    pub hash: BlockHash,
    /// Index of the transaction within that block.
    pub index: usize,
}

/// One raw status notification for a watched transaction, exactly as the
/// transaction pool produces them, in arrival order.
///
/// The pool decides when the stream of these ends; the translator only
/// reshapes each item.
#[derive(Debug, PartialEq, Eq)]
pub enum RawStatus<Hash, BlockHash> {
    /// The transaction is ready for inclusion.
    Ready,
    /// The transaction waits on another transaction before it is ready.
    Future,
    /// The transaction was announced to the named peers.
    Broadcast(Vec<String>),
    /// The transaction was included in a best-chain block.
    InBlock((BlockHash, usize)),
    /// The block the transaction sat in was retracted from the best chain.
    Retracted(BlockHash),
    /// The pool gave up watching for finality of the named block.
    FinalityTimeout(BlockHash),
    /// The block holding the transaction was finalized.
    Finalized((BlockHash, usize)),
    /// Another transaction with the given hash replaced this one.
    Usurped(Hash),
    /// The pool dropped the transaction because a limit was exceeded.
    Dropped,
    /// The pool found the transaction invalid.
    Invalid,
}

/// The client-facing event vocabulary: deliberately coarser than
/// [`RawStatus`], with human-readable reason text instead of error codes.
#[derive(Debug, PartialEq, Eq)]
pub enum ClientEvent<BlockHash> {
    /// The transaction passed the pool's entry checks (ready or future).
    Validated,
    /// The transaction was announced to `peer_count` peers.
    Broadcasted {
        /// How many peers the transaction was announced to.
        peer_count: usize,
    },
    /// The transaction is in a best-chain block (`Some`), or no longer in
    /// one after a retraction (`None`).
    BestChainBlockIncluded(Option<BlockRef<BlockHash>>),
    /// The block holding the transaction was finalized.
    Finalized(BlockRef<BlockHash>),
    /// The transaction cannot make progress any more.
    Invalid {
        /// Human-readable explanation; not meant for programmatic branching.
        reason: String,
    },
    /// The transaction was dropped from watching; `was_broadcasted` says
    /// whether it had ever left the local node.
    Dropped {
        /// Whether the transaction was ever announced to at least one peer.
        was_broadcasted: bool,
        /// Human-readable explanation; not meant for programmatic branching.
        reason: String,
    },
}

/// Mathematical model of a [`ClientEvent`]: reason text as a character
/// sequence, counts as mathematical integers.
pub enum EventModel<BlockHash> {
    /// Model of [`ClientEvent::Validated`].
    Validated,
    /// Model of [`ClientEvent::Broadcasted`].
    Broadcasted { peer_count: nat },
    /// Model of [`ClientEvent::BestChainBlockIncluded`].
    BestChainBlockIncluded(Option<BlockRef<BlockHash>>),
    /// Model of [`ClientEvent::Finalized`].
    Finalized(BlockRef<BlockHash>),
    /// Model of [`ClientEvent::Invalid`].
    Invalid { reason: Seq<char> },
    /// Model of [`ClientEvent::Dropped`].
    Dropped { was_broadcasted: bool, reason: Seq<char> },
}

impl<BlockHash> View for ClientEvent<BlockHash> {
    type V = EventModel<BlockHash>;

    open spec fn view(&self) -> EventModel<BlockHash> {
        match self {
            ClientEvent::Validated => EventModel::Validated,
            ClientEvent::Broadcasted { peer_count } => EventModel::Broadcasted {
                peer_count: *peer_count as nat,
            },
            ClientEvent::BestChainBlockIncluded(block) => EventModel::BestChainBlockIncluded(
                *block,
            ),
            ClientEvent::Finalized(block) => EventModel::Finalized(*block),
            ClientEvent::Invalid { reason } => EventModel::Invalid { reason: reason@ },
            ClientEvent::Dropped { was_broadcasted, reason } => EventModel::Dropped {
                was_broadcasted: *was_broadcasted,
                reason: reason@,
            },
        }
    }
}

/// The views of a sequence of client events, in order.
pub open spec fn views_of<BlockHash>(events: Seq<ClientEvent<BlockHash>>) -> Seq<
    EventModel<BlockHash>,
> {
    events.map_values(|e: ClientEvent<BlockHash>| e@)
}

/// A terminal event: after it, no further events are expected for the
/// subscription.
pub open spec fn is_terminal<BlockHash>(e: EventModel<BlockHash>) -> bool {
    e is Finalized || e is Invalid || e is Dropped
}

/// Reason text reported when the pool's finality watcher limit was reached.
pub open spec fn finality_timeout_reason() -> Seq<char> {
    "finality watcher limit reached"@
}

/// Reason text reported when another transaction replaced this one.
pub open spec fn usurped_reason() -> Seq<char> {
    "superseded by another transaction"@
}

/// Reason text reported when the pool dropped the transaction over a limit.
pub open spec fn dropped_reason() -> Seq<char> {
    "dropped: exceeded pool limits"@
}

/// Reason text reported when the pool marked the transaction invalid.
pub open spec fn invalid_reason() -> Seq<char> {
    "marked invalid"@
}

/// The executable counterpart of [`finality_timeout_reason`].
pub fn finality_timeout_text() -> (r: String)
    ensures
        r@ == finality_timeout_reason(),
{
    "finality watcher limit reached".to_owned()
}

/// The executable counterpart of [`usurped_reason`].
pub fn usurped_text() -> (r: String)
    ensures
        r@ == usurped_reason(),
{
    "superseded by another transaction".to_owned()
}

/// The executable counterpart of [`dropped_reason`].
pub fn dropped_text() -> (r: String)
    ensures
        r@ == dropped_reason(),
{
    "dropped: exceeded pool limits".to_owned()
}

/// The executable counterpart of [`invalid_reason`].
pub fn invalid_text() -> (r: String)
    ensures
        r@ == invalid_reason(),
{
    "marked invalid".to_owned()
}

} // verus!
