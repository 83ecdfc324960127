use rusty_home::live_location::{start, step, LiveAction, LiveEvent, LiveState, LIVE_PERIOD_SECS};

/// The parts of the store and the chat that the protocol touches.
#[derive(Default)]
struct World {
    live_id: Option<i64>,
    pinned_queue: Vec<i64>,
    pinned_in_chat: Vec<i64>,
    messages: Vec<i64>,
    next_message_id: i64,
    edits: Vec<i64>,
}

impl World {
    /// Performs an action and returns the reply; `None` when the handling is over.
    fn perform(&mut self, action: LiveAction) -> Option<LiveEvent> {
        Some(match action {
            LiveAction::ReadLiveId => LiveEvent::Stored { live_id: self.live_id },
            LiveAction::Edit { message_id } => {
                self.edits.push(message_id);
                LiveEvent::Acknowledged
            }
            LiveAction::SendLocation { live_period_secs } => {
                assert_eq!(live_period_secs, LIVE_PERIOD_SECS);
                self.next_message_id += 1;
                self.messages.push(self.next_message_id);
                LiveEvent::Sent { message_id: self.next_message_id }
            }
            LiveAction::Claim { message_id, expiry_secs } => {
                assert_eq!(expiry_secs, 86400);
                let won = self.live_id.is_none();
                if won {
                    self.live_id = Some(message_id);
                }
                LiveEvent::Claimed { won }
            }
            LiveAction::Pin { message_id, disable_notification } => {
                assert!(disable_notification);
                self.pinned_in_chat.push(message_id);
                LiveEvent::Acknowledged
            }
            LiveAction::PopPinned => LiveEvent::Popped {
                head: if self.pinned_queue.is_empty() { None } else { Some(self.pinned_queue.remove(0)) },
            },
            LiveAction::Unpin { message_id } => {
                self.pinned_in_chat.retain(|&m| m != message_id);
                LiveEvent::Acknowledged
            }
            LiveAction::Delete { message_id } => {
                self.messages.retain(|&m| m != message_id);
                LiveEvent::Acknowledged
            }
            LiveAction::PushPinned { message_id } => {
                self.pinned_queue.push(message_id);
                LiveEvent::Acknowledged
            }
            LiveAction::Finish { .. } => return None,
        })
    }
}

fn run_to_end(world: &mut World, mut state: LiveState, mut action: LiveAction) -> LiveAction {
    while let Some(event) = world.perform(action) {
        let next = step(state, event);
        state = next.0;
        action = next.1;
    }
    action
}

#[test]
fn live_location_race() {
    let mut world = World::default();
    // Both instances read the key before either claims it.
    let (a, a_action) = start();
    let (b, b_action) = start();
    let a_event = world.perform(a_action).unwrap();
    let b_event = world.perform(b_action).unwrap();
    let (a, a_action) = step(a, a_event);
    let (b, b_action) = step(b, b_event);
    assert_eq!(a_action, LiveAction::SendLocation { live_period_secs: 86400 });
    assert_eq!(b_action, LiveAction::SendLocation { live_period_secs: 86400 });
    let a_event = world.perform(a_action).unwrap();
    let b_event = world.perform(b_action).unwrap();
    let (a, a_action) = step(a, a_event);
    let (b, b_action) = step(b, b_event);
    assert_eq!(run_to_end(&mut world, a, a_action), LiveAction::Finish { ok: true });
    assert_eq!(run_to_end(&mut world, b, b_action), LiveAction::Finish { ok: true });

    assert_eq!(world.pinned_in_chat, vec![1]);
    assert_eq!(world.pinned_queue, vec![1]);
    assert_eq!(world.messages, vec![1]);
    assert_eq!(world.live_id, Some(1));
}

#[test]
fn live_location_edit() {
    let mut world = World { live_id: Some(42), pinned_queue: vec![42], pinned_in_chat: vec![42], ..World::default() };
    let (state, action) = start();
    assert_eq!(run_to_end(&mut world, state, action), LiveAction::Finish { ok: true });
    assert_eq!(world.edits, vec![42]);
    assert!(world.messages.is_empty());
    assert_eq!(world.pinned_queue, vec![42]);
    assert_eq!(world.pinned_in_chat, vec![42]);
}

#[test]
fn expired_message_is_replaced() {
    // The key expired: the old message is still pinned and queued.
    let mut world = World { pinned_queue: vec![7], pinned_in_chat: vec![7], messages: vec![7], next_message_id: 7, ..World::default() };
    let (state, action) = start();
    assert_eq!(run_to_end(&mut world, state, action), LiveAction::Finish { ok: true });
    assert_eq!(world.pinned_in_chat, vec![8]);
    assert_eq!(world.pinned_queue, vec![8]);
    assert_eq!(world.messages, vec![8]);
}

#[test]
fn failures_of_the_protocol() {
    // A failed edit is not fatal.
    assert_eq!(
        step(LiveState::Editing { message_id: 1 }, LiveEvent::Failed),
        (LiveState::Done, LiveAction::Finish { ok: true })
    );
    // A failed delete of an old message goes on draining.
    assert_eq!(
        step(LiveState::DeletingOld { message_id: 2, old: 1 }, LiveEvent::Failed),
        (LiveState::Draining { message_id: 2 }, LiveAction::PopPinned)
    );
    // A failed pin ends with an error.
    assert_eq!(
        step(LiveState::Pinning { message_id: 2 }, LiveEvent::Failed),
        (LiveState::Done, LiveAction::Finish { ok: false })
    );
    assert_eq!(
        step(LiveState::Sending, LiveEvent::Failed),
        (LiveState::Done, LiveAction::Finish { ok: false })
    );
    assert_eq!(LIVE_PERIOD_SECS, 86400);
}
