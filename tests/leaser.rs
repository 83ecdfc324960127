use std::time::Duration;

use rusty_home::bot::poll_request;
use rusty_home::heartbeat::{HeartbeatPacer, HEARTBEAT_INTERVAL_MILLIS};
use rusty_home::keys::{get_updates_key, offset_key};
use rusty_home::leaser::{after_claim, LeaseAction, UpdateOffset};
use rusty_home::methods::AllowedUpdate;

#[test]
fn update_lease_contention() {
    // A holds the lease; B's claim fails and it reads a PTTL of 60000.
    assert_eq!(after_claim(false, 60000), LeaseAction::Sleep { millis: 60001 });
    // A released early: B's next claim succeeds.
    assert_eq!(after_claim(true, -2), LeaseAction::Poll);
    assert_eq!(after_claim(false, -2), LeaseAction::Sleep { millis: 1 });
    assert_eq!(get_updates_key(123), "rusty:telegram:123:get_updates");
    assert_eq!(offset_key(-5), "rusty:telegram:-5:offset");
}

#[test]
fn offsets_move_before_handlers() {
    let mut offset = UpdateOffset::from_stored(None);
    assert_eq!(offset.next, 0);
    let written = offset.record_batch(&vec![10, 11, 15]);
    assert_eq!(written, vec![11, 12, 16]);
    assert_eq!(offset.next, 16);
    let mut offset = UpdateOffset::from_stored(Some(16));
    assert_eq!(offset.record_batch(&vec![]), Vec::<u64>::new());
    assert_eq!(offset.next, 16);
    offset.record(20);
    assert_eq!(offset.next, 21);
}

#[test]
fn poll_request_asks_for_messages() {
    let request = poll_request(16, Duration::from_secs(60));
    assert_eq!(request.offset, 16);
    assert_eq!(request.timeout, Duration::from_secs(60));
    assert_eq!(request.allowed_updates, vec![AllowedUpdate::Message]);
}

#[test]
fn heartbeat_pacing() {
    let mut pacer = HeartbeatPacer::new();
    assert!(pacer.try_acquire(1_000));
    assert!(!pacer.try_acquire(1_000));
    assert!(!pacer.try_acquire(60_999));
    assert!(pacer.try_acquire(61_000));
    assert_eq!(pacer.last_sent_millis, Some(61_000));
    assert!(!pacer.try_acquire(61_000 + HEARTBEAT_INTERVAL_MILLIS - 1));
    assert!(pacer.try_acquire(61_000 + HEARTBEAT_INTERVAL_MILLIS));
}

use rusty_home::leaser::{poll_step, start_poll, PollAction, PollEvent, PollState};

#[test]
fn poll_round_with_contention() {
    // B: the lease is held, with 60 s left.
    let (state, action) = start_poll();
    assert_eq!(action, PollAction::Claim);
    let (state, action) = poll_step(state, PollEvent::Claimed { acquired: false });
    assert_eq!(action, PollAction::ReadRemaining);
    let (state, action) = poll_step(state, PollEvent::Remaining { millis: 60000 });
    assert_eq!(action, PollAction::Sleep { millis: 60001 });
    let (state, action) = poll_step(state, PollEvent::Acknowledged);
    assert_eq!(action, PollAction::Claim);
    // A released the lease: B wins and polls from the stored offset.
    let (state, action) = poll_step(state, PollEvent::Claimed { acquired: true });
    assert_eq!(action, PollAction::ReadOffset);
    let (state, action) = poll_step(state, PollEvent::Offset { stored: Some(10) });
    assert_eq!(action, PollAction::GetUpdates { offset: 10 });
    let (state, action) = poll_step(state, PollEvent::Acknowledged);
    assert_eq!(action, PollAction::NextUpdate);
    let (state, action) = poll_step(state, PollEvent::Next { update_id: Some(10) });
    assert_eq!(action, PollAction::PersistOffset { offset: 11 });
    let (state, action) = poll_step(state, PollEvent::Acknowledged);
    assert_eq!(action, PollAction::Handle { update_id: 10 });
    // A failed handler does not stop the round.
    let (state, action) = poll_step(state, PollEvent::Failed);
    assert_eq!(action, PollAction::NextUpdate);
    let (state, action) = poll_step(state, PollEvent::Next { update_id: Some(u64::MAX) });
    assert_eq!(action, PollAction::NextUpdate);
    let (state, action) = poll_step(state, PollEvent::Next { update_id: None });
    assert_eq!(action, PollAction::Release);
    let (state, action) = poll_step(state, PollEvent::Acknowledged);
    assert_eq!((state, action), (PollState::Done, PollAction::Finish { ok: true }));
}

#[test]
fn poll_round_failures() {
    assert_eq!(
        poll_step(PollState::Persisting { update_id: 3 }, PollEvent::Failed),
        (PollState::Done, PollAction::Finish { ok: false })
    );
    assert_eq!(
        poll_step(PollState::ReadingOffset, PollEvent::Offset { stored: None }),
        (PollState::Polling { offset: 0 }, PollAction::GetUpdates { offset: 0 })
    );
    assert_eq!(
        poll_step(PollState::Measuring, PollEvent::Remaining { millis: -2 }),
        (PollState::Sleeping, PollAction::Sleep { millis: 1 })
    );
}
