//! The submission pipeline: the decisions behind submit-and-watch.
//!
//! The pipeline has exactly one synchronous failure: a payload that does not
//! decode, rejected with a fixed error code before any subscription exists.
//! Every later defect — the pool refusing the submission included — is
//! reported as a terminal client event through the already-open subscription,
//! never as a second synchronous error.

use vstd::prelude::*;
use vstd::string::StringExecFns;

use crate::event::{is_terminal, views_of, ClientEvent, EventModel};

verus! {

/// Error code of a synchronous rejection for a payload with an invalid
/// format.
pub const BAD_FORMAT: i32 = 1001;

/// The one synchronous error of the pipeline: the payload could not be
/// decoded, so no subscription was opened and no event will ever be emitted
/// for the attempt.
#[derive(Debug, Clone, PartialEq, Eq)]
pub struct SubmissionRejected {
    /// Fixed application error code; [`BAD_FORMAT`] for a malformed payload.
    pub code: i32,
    /// Human-readable description of the failure.
    pub message: String,
}

/// Where a transaction entered the node from, as the pool distinguishes
/// origins.
#[derive(Debug, Clone, Copy, PartialEq, Eq, Structural)]
pub enum TransactionSource {
    /// Included in a block of the chain.
    InBlock,
    /// Authored by the local node.
    Local,
    /// Received from the outside, such as over RPC.
    External,
}

/// What one submission attempt produced at the pool: either a live stream of
/// raw statuses, or the pool's refusal, already rendered as text.
#[derive(Debug, PartialEq, Eq)]
pub enum SubmissionOutcome<StreamHandle> {
    /// The pool accepted the transaction and watches it through this handle.
    Stream(StreamHandle),
    /// The pool refused the submission for the given reason.
    SubmissionError(String),
}

/// The message of a synchronous rejection: a fixed prefix followed by the
/// decoder's own account of the failure.
pub open spec fn bad_format_message(detail: Seq<char>) -> Seq<char> {
    "Extrinsic has invalid format: "@ + detail
}

/// The synchronous half of submit-and-watch: decide from the decode outcome
/// whether the attempt is rejected on the spot or goes to the pool.
///
/// A payload that decoded is always accepted, paired with the fixed source
/// tag: every transaction entering through this path counts as externally
/// submitted.  A payload that did not decode is always rejected, with code
/// [`BAD_FORMAT`] and a message naming the decoder's complaint; nothing else
/// is ever rejected here.
pub fn start_submission<Tx>(decoded: Result<Tx, String>) -> (r: Result<
    (Tx, TransactionSource),
    SubmissionRejected,
>)
    ensures
        match decoded {
            Ok(tx) => r matches Ok(p) && p.0 == tx && p.1 == TransactionSource::External,
            Err(detail) => r matches Err(rejection) && rejection.code == BAD_FORMAT
                && rejection.message@ == bad_format_message(detail@),
        },
{
    match decoded {
        Ok(tx) => Ok((tx, TransactionSource::External)),
        Err(detail) => {
            let mut message = "Extrinsic has invalid format: ".to_owned();
            message.append(detail.as_str());
            Err(SubmissionRejected { code: BAD_FORMAT, message })
        },
    }
}

/// The asynchronous half of submit-and-watch: normalize the pool's outcome
/// into what the subscription delivers.
///
/// A live stream is handed on untouched, to be translated status by status.
/// A refusal becomes a synthesized stream of exactly one terminal event
/// carrying the refusal's text — the subscription was already accepted, so
/// the error must travel as an event, never as a second synchronous error.
pub fn initial_watch<StreamHandle, BlockHash>(outcome: SubmissionOutcome<StreamHandle>) -> (r:
    Result<StreamHandle, Vec<ClientEvent<BlockHash>>>)
    ensures
        match outcome {
            SubmissionOutcome::Stream(handle) => r matches Ok(h) && h == handle,
            SubmissionOutcome::SubmissionError(reason) => r matches Err(events)
                && views_of(events@) == seq![EventModel::<BlockHash>::Invalid { reason: reason@ }]
                && is_terminal(views_of(events@)[0]),
        },
{
    match outcome {
        SubmissionOutcome::Stream(handle) => Ok(handle),
        SubmissionOutcome::SubmissionError(reason) => {
            let mut events: Vec<ClientEvent<BlockHash>> = Vec::new();
            events.push(ClientEvent::Invalid { reason });
            proof {
                assert(views_of(events@) =~= seq![events@[0]@]);
            }
            Err(events)
        },
    }
}

/// The pipeline's handle on its collaborators: the chain client it asks for
/// the best block, the transaction pool it submits to, and the executor that
/// runs each subscription's pump as background work.  All three stay opaque
/// here: the pipeline never looks inside them.
pub struct Transaction<Client, Pool, Executor> {
    /// Chain client queried for the best block hash at submission time.
    pub client: Client,
    /// Transaction pool the decoded transaction is handed to.
    pub pool: Pool,
    /// Executor that spawns one background pump per subscription.
    pub executor: Executor,
}

impl<Client, Pool, Executor> Transaction<Client, Pool, Executor> {
    /// Bundle the three collaborators into a pipeline handle.
    pub fn new(client: Client, pool: Pool, executor: Executor) -> (r: Self)
        ensures
            r.client == client,
            r.pool == pool,
            r.executor == executor,
    {
        Transaction { client, pool, executor }
    }
}

} // verus!
