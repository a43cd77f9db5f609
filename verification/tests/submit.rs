//! Tests of the submission pipeline's two halves and of the subscription
//! pump: synchronous rejection, asynchronous refusal, and stopping delivery.

use tx_watch::event::{ClientEvent, RawStatus};
use tx_watch::pump::SubscriptionPump;
use tx_watch::submit::{
    initial_watch, start_submission, SubmissionOutcome, Transaction, TransactionSource, BAD_FORMAT,
};

type Event = ClientEvent<u64>;

#[test]
fn malformed_payload_is_rejected_with_the_fixed_code() {
    let r = start_submission::<u64>(Err("unexpected end of input".to_string()));
    let rejection = r.err().expect("a decode failure must be rejected");
    assert_eq!(rejection.code, BAD_FORMAT);
    assert_eq!(rejection.code, 1001);
    assert_eq!(
        rejection.message,
        "Extrinsic has invalid format: unexpected end of input".to_string()
    );
}

#[test]
fn well_formed_payload_goes_to_the_pool_tagged_external() {
    let r = start_submission::<u64>(Ok(42));
    assert_eq!(r.ok(), Some((42, TransactionSource::External)));
}

#[test]
fn pool_refusal_becomes_one_terminal_event() {
    // The stream handle type is arbitrary here; no stream exists on this path.
    let r = initial_watch::<u8, u64>(SubmissionOutcome::SubmissionError(
        "pool is full".to_string(),
    ));
    let events = r.err().expect("a refusal must synthesize events");
    assert_eq!(events, vec![Event::Invalid { reason: "pool is full".to_string() }]);
}

#[test]
fn accepted_submission_hands_the_stream_through() {
    let r = initial_watch::<u8, u64>(SubmissionOutcome::Stream(7));
    assert_eq!(r.ok(), Some(7));
}

#[test]
fn transaction_bundles_its_collaborators() {
    let t = Transaction::new(1u8, 2u16, 3u32);
    assert_eq!(t.client, 1);
    assert_eq!(t.pool, 2);
    assert_eq!(t.executor, 3);
}

#[test]
fn pump_translates_until_stopped() {
    let mut pump = SubscriptionPump::new();
    let first = pump.next_event::<u64, u64>(RawStatus::Ready);
    assert_eq!(first, Some(Event::Validated));
    let second = pump.next_event::<u64, u64>(RawStatus::Broadcast(vec!["p".to_string()]));
    assert_eq!(second, Some(Event::Broadcasted { peer_count: 1 }));
    pump.stop();
    let after = pump.next_event::<u64, u64>(RawStatus::Finalized((1, 0)));
    assert_eq!(after, None);
    // The translator state is untouched by the stop.
    assert!(pump.translator.broadcasted);
}

#[test]
fn stopping_one_pump_leaves_another_untouched() {
    let mut gone = SubscriptionPump::new();
    let mut alive = SubscriptionPump::new();
    assert_eq!(gone.next_event::<u64, u64>(RawStatus::Ready), Some(Event::Validated));
    gone.stop();
    assert_eq!(gone.next_event::<u64, u64>(RawStatus::Ready), None);
    // The other subscription still translates and still tracks its own state.
    assert_eq!(
        alive.next_event::<u64, u64>(RawStatus::Broadcast(vec!["p".to_string()])),
        Some(Event::Broadcasted { peer_count: 1 })
    );
    assert!(alive.translator.broadcasted);
    assert!(!alive.stopped);
}
