//! Tests of the status translator: the mapping table, the `broadcasted`
//! flag's life cycle, and order preservation over whole sequences.

use tx_watch::event::{BlockRef, ClientEvent, RawStatus};
use tx_watch::translator::TransactionState;

type Status = RawStatus<u64, u64>;
type Event = ClientEvent<u64>;

fn peers(names: &[&str]) -> Vec<String> {
    names.iter().map(|n| n.to_string()).collect()
}

#[test]
fn ready_and_future_both_map_to_validated() {
    let mut state = TransactionState::new();
    assert_eq!(state.handle_event::<u64, u64>(RawStatus::Ready), Some(Event::Validated));
    assert_eq!(state.handle_event::<u64, u64>(RawStatus::Future), Some(Event::Validated));
    assert!(!state.broadcasted);
}

#[test]
fn in_block_and_retracted_share_the_inclusion_shape() {
    let mut state = TransactionState::new();
    assert_eq!(
        state.handle_event::<u64, u64>(RawStatus::InBlock((9, 3))),
        Some(Event::BestChainBlockIncluded(Some(BlockRef { hash: 9, index: 3 })))
    );
    assert_eq!(
        state.handle_event::<u64, u64>(RawStatus::Retracted(9)),
        Some(Event::BestChainBlockIncluded(None))
    );
}

#[test]
fn finalized_reports_the_block() {
    let mut state = TransactionState::new();
    assert_eq!(
        state.handle_event::<u64, u64>(RawStatus::Finalized((4, 0))),
        Some(Event::Finalized(BlockRef { hash: 4, index: 0 }))
    );
}

#[test]
fn usurped_dropped_and_invalid_each_carry_their_reason() {
    let mut state = TransactionState::new();
    assert_eq!(
        state.handle_event::<u64, u64>(RawStatus::Usurped(77)),
        Some(Event::Invalid { reason: "superseded by another transaction".to_string() })
    );
    assert_eq!(
        state.handle_event::<u64, u64>(RawStatus::Dropped),
        Some(Event::Invalid { reason: "dropped: exceeded pool limits".to_string() })
    );
    assert_eq!(
        state.handle_event::<u64, u64>(RawStatus::Invalid),
        Some(Event::Invalid { reason: "marked invalid".to_string() })
    );
}

#[test]
fn ready_broadcast_two_peers_then_finality_timeout() {
    let mut state = TransactionState::new();
    let statuses: Vec<Status> = vec![
        RawStatus::Ready,
        RawStatus::Broadcast(peers(&["peer-a", "peer-b"])),
        RawStatus::FinalityTimeout(11),
    ];
    let events = state.handle_events(statuses);
    assert_eq!(
        events,
        vec![
            Event::Validated,
            Event::Broadcasted { peer_count: 2 },
            Event::Dropped {
                was_broadcasted: true,
                reason: "finality watcher limit reached".to_string(),
            },
        ]
    );
}

#[test]
fn future_broadcast_zero_peers_then_dropped() {
    let mut state = TransactionState::new();
    let statuses: Vec<Status> = vec![
        RawStatus::Future,
        RawStatus::Broadcast(peers(&[])),
        RawStatus::Dropped,
    ];
    let events = state.handle_events(statuses);
    assert_eq!(
        events,
        vec![
            Event::Validated,
            Event::Broadcasted { peer_count: 0 },
            Event::Invalid { reason: "dropped: exceeded pool limits".to_string() },
        ]
    );
    // A broadcast that reached nobody never raised the flag.
    assert!(!state.broadcasted);
}

#[test]
fn every_status_yields_exactly_one_event() {
    let mut state = TransactionState::new();
    let statuses: Vec<Status> = vec![
        RawStatus::Ready,
        RawStatus::Future,
        RawStatus::Broadcast(peers(&["p"])),
        RawStatus::InBlock((1, 0)),
        RawStatus::Retracted(1),
        RawStatus::FinalityTimeout(2),
        RawStatus::Finalized((3, 1)),
        RawStatus::Usurped(5),
        RawStatus::Dropped,
        RawStatus::Invalid,
    ];
    let n = statuses.len();
    let events = state.handle_events(statuses);
    assert_eq!(events.len(), n);
}

#[test]
fn broadcasted_flag_starts_false_rises_once_and_stays() {
    let mut state = TransactionState::new();
    assert!(!state.broadcasted);
    state.handle_event::<u64, u64>(RawStatus::Ready);
    assert!(!state.broadcasted);
    state.handle_event::<u64, u64>(RawStatus::Broadcast(peers(&[])));
    assert!(!state.broadcasted);
    state.handle_event::<u64, u64>(RawStatus::Broadcast(peers(&["p"])));
    assert!(state.broadcasted);
    state.handle_event::<u64, u64>(RawStatus::Broadcast(peers(&[])));
    assert!(state.broadcasted);
    state.handle_event::<u64, u64>(RawStatus::Retracted(1));
    assert!(state.broadcasted);
    let after = state.handle_event::<u64, u64>(RawStatus::FinalityTimeout(2));
    assert_eq!(
        after,
        Some(Event::Dropped {
            was_broadcasted: true,
            reason: "finality watcher limit reached".to_string(),
        })
    );
}

#[test]
fn finality_timeout_before_any_broadcast_reports_not_broadcasted() {
    let mut state = TransactionState::new();
    assert_eq!(
        state.handle_event::<u64, u64>(RawStatus::FinalityTimeout(8)),
        Some(Event::Dropped {
            was_broadcasted: false,
            reason: "finality watcher limit reached".to_string(),
        })
    );
}

#[test]
fn events_keep_the_arrival_order_of_statuses() {
    let mut state = TransactionState::new();
    let statuses: Vec<Status> = vec![
        RawStatus::Ready,
        RawStatus::Ready,
        RawStatus::InBlock((6, 2)),
        RawStatus::Retracted(6),
        RawStatus::InBlock((7, 4)),
        RawStatus::Finalized((7, 4)),
    ];
    let events = state.handle_events(statuses);
    assert_eq!(
        events,
        vec![
            Event::Validated,
            Event::Validated,
            Event::BestChainBlockIncluded(Some(BlockRef { hash: 6, index: 2 })),
            Event::BestChainBlockIncluded(None),
            Event::BestChainBlockIncluded(Some(BlockRef { hash: 7, index: 4 })),
            Event::Finalized(BlockRef { hash: 7, index: 4 }),
        ]
    );
}

#[test]
fn consecutive_duplicate_events_are_not_deduplicated() {
    let mut state = TransactionState::new();
    let statuses: Vec<Status> = vec![RawStatus::Ready, RawStatus::Ready, RawStatus::Future];
    let events = state.handle_events(statuses);
    assert_eq!(events, vec![Event::Validated, Event::Validated, Event::Validated]);
}
