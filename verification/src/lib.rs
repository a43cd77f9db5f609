//! Submit-and-watch pipeline for binary-encoded transactions.
//!
//! A client hands in a payload; the pipeline either rejects it synchronously
//! (malformed input) or opens a subscription through which the transaction's
//! life cycle is reported as an ordered stream of client events.  The heart of
//! the library is the status translator: a small state machine that maps each
//! raw status notification from the transaction pool to exactly one
//! client-facing event while tracking whether the transaction was ever
//! broadcast to a peer.

pub mod event;
pub mod pump;
pub mod submit;
pub mod translator;
