//! The live-location message protocol of the stream consumer.
//!
//! One position entry is handled by a short exchange with the shared store and
//! the chat: the machine below says, for each reply, what to do next. At most one
//! message is authoritative (the one under the live-location key); a fresh message
//! is pinned only by the instance that wins the `SET NX` on that key, which then
//! unpins and deletes every earlier message of the pinned queue before it queues
//! its own.

use vstd::prelude::*;

verus! {

/// Lifetime of a live-location message, and of the key that names it, in seconds.
pub const LIVE_PERIOD_SECS: u64 = 86400;

/// Where the handling of one position entry stands.
#[derive(Clone, Copy, Debug, PartialEq, Eq, Structural)]
pub enum LiveState {
    /// The live-location key is being read.
    Looking,
    /// The authoritative message is being edited.
    Editing { message_id: i64 },
    /// A fresh live-location message is being sent.
    Sending,
    /// The fresh message is being claimed with `SET NX EX`.
    Claiming { message_id: i64 },
    /// The claimed message is being pinned.
    Pinning { message_id: i64 },
    /// The next earlier message is being popped from the pinned queue.
    Draining { message_id: i64 },
    /// An earlier message is being unpinned.
    Unpinning { message_id: i64, old: i64 },
    /// An earlier, unpinned message is being deleted.
    DeletingOld { message_id: i64, old: i64 },
    /// The claimed message is being pushed onto the pinned queue.
    Pushing { message_id: i64 },
    /// The claim was lost: the fresh message is being deleted.
    Discarding { message_id: i64 },
    /// Nothing is left to do.
    Done,
}

/// A reply to the last action.
#[derive(Clone, Copy, Debug, PartialEq, Eq, Structural)]
pub enum LiveEvent {
    /// The value of the live-location key.
    Stored { live_id: Option<i64> },
    /// The id of the message that was sent.
    Sent { message_id: i64 },
    /// Whether `SET NX` wrote the key.
    Claimed { won: bool },
    /// The head of the pinned queue, removed from it.
    Popped { head: Option<i64> },
    /// The call succeeded.
    Acknowledged,
    /// The call failed.
    Failed,
}

/// What to do next.
#[derive(Clone, Copy, Debug, PartialEq, Eq, Structural)]
pub enum LiveAction {
    /// `GET` the live-location key.
    ReadLiveId,
    /// Edit the live location of a message.
    Edit { message_id: i64 },
    /// Send a fresh location that stays live for `live_period_secs`.
    SendLocation { live_period_secs: u64 },
    /// `SET` the live-location key to the message id, `NX`, `EX expiry_secs`.
    Claim { message_id: i64, expiry_secs: u64 },
    /// Pin a message, silently where `disable_notification`.
    Pin { message_id: i64, disable_notification: bool },
    /// Pop the head of the pinned queue.
    PopPinned,
    /// Unpin a message.
    Unpin { message_id: i64 },
    /// Delete a message.
    Delete { message_id: i64 },
    /// Push a message id onto the pinned queue.
    PushPinned { message_id: i64 },
    /// The entry is handled, successfully or not.
    Finish { ok: bool },
}

/// The transition table of the protocol.
pub open spec fn step_spec(state: LiveState, event: LiveEvent) -> (LiveState, LiveAction) {
    match (state, event) {
        (LiveState::Looking, LiveEvent::Stored { live_id: Some(id) }) =>
            (LiveState::Editing { message_id: id }, LiveAction::Edit { message_id: id }),
        (LiveState::Looking, LiveEvent::Stored { live_id: None }) =>
            (LiveState::Sending, LiveAction::SendLocation { live_period_secs: LIVE_PERIOD_SECS }),
        // A failed edit is reported and not retried.
        (LiveState::Editing { .. }, LiveEvent::Acknowledged) =>
            (LiveState::Done, LiveAction::Finish { ok: true }),
        (LiveState::Editing { .. }, LiveEvent::Failed) =>
            (LiveState::Done, LiveAction::Finish { ok: true }),
        (LiveState::Sending, LiveEvent::Sent { message_id }) =>
            (LiveState::Claiming { message_id }, LiveAction::Claim { message_id, expiry_secs: LIVE_PERIOD_SECS }),
        (LiveState::Claiming { message_id }, LiveEvent::Claimed { won: true }) =>
            (LiveState::Pinning { message_id }, LiveAction::Pin { message_id, disable_notification: true }),
        (LiveState::Claiming { message_id }, LiveEvent::Claimed { won: false }) =>
            (LiveState::Discarding { message_id }, LiveAction::Delete { message_id }),
        (LiveState::Pinning { message_id }, LiveEvent::Acknowledged) =>
            (LiveState::Draining { message_id }, LiveAction::PopPinned),
        (LiveState::Draining { message_id }, LiveEvent::Popped { head: Some(old) }) =>
            (LiveState::Unpinning { message_id, old }, LiveAction::Unpin { message_id: old }),
        (LiveState::Draining { message_id }, LiveEvent::Popped { head: None }) =>
            (LiveState::Pushing { message_id }, LiveAction::PushPinned { message_id }),
        (LiveState::Unpinning { message_id, old }, LiveEvent::Acknowledged) =>
            (LiveState::DeletingOld { message_id, old }, LiveAction::Delete { message_id: old }),
        // A failed delete of an unpinned message is reported and draining goes on.
        (LiveState::DeletingOld { message_id, .. }, LiveEvent::Acknowledged) =>
            (LiveState::Draining { message_id }, LiveAction::PopPinned),
        (LiveState::DeletingOld { message_id, .. }, LiveEvent::Failed) =>
            (LiveState::Draining { message_id }, LiveAction::PopPinned),
        (LiveState::Pushing { .. }, LiveEvent::Acknowledged) =>
            (LiveState::Done, LiveAction::Finish { ok: true }),
        (LiveState::Discarding { .. }, LiveEvent::Acknowledged) =>
            (LiveState::Done, LiveAction::Finish { ok: true }),
        // Any other failure, or a reply that does not answer the last action, ends the
        // handling of the entry with an error.
        _ => (LiveState::Done, LiveAction::Finish { ok: false }),
    }
}

/// The first state and action of the handling of a position entry.
pub fn start() -> (r: (LiveState, LiveAction))
    ensures
        r == (LiveState::Looking, LiveAction::ReadLiveId),
{
    (LiveState::Looking, LiveAction::ReadLiveId)
}

/// The next state and action, given the reply to the last action.
pub fn step(state: LiveState, event: LiveEvent) -> (r: (LiveState, LiveAction))
    ensures
        r == step_spec(state, event),
{
    match (state, event) {
        (LiveState::Looking, LiveEvent::Stored { live_id: Some(id) }) =>
            (LiveState::Editing { message_id: id }, LiveAction::Edit { message_id: id }),
        (LiveState::Looking, LiveEvent::Stored { live_id: None }) =>
            (LiveState::Sending, LiveAction::SendLocation { live_period_secs: LIVE_PERIOD_SECS }),
        (LiveState::Editing { .. }, LiveEvent::Acknowledged) =>
            (LiveState::Done, LiveAction::Finish { ok: true }),
        (LiveState::Editing { .. }, LiveEvent::Failed) =>
            (LiveState::Done, LiveAction::Finish { ok: true }),
        (LiveState::Sending, LiveEvent::Sent { message_id }) =>
            (LiveState::Claiming { message_id }, LiveAction::Claim { message_id, expiry_secs: LIVE_PERIOD_SECS }),
        (LiveState::Claiming { message_id }, LiveEvent::Claimed { won }) =>
            if won {
                (LiveState::Pinning { message_id }, LiveAction::Pin { message_id, disable_notification: true })
            } else {
                (LiveState::Discarding { message_id }, LiveAction::Delete { message_id })
            },
        (LiveState::Pinning { message_id }, LiveEvent::Acknowledged) =>
            (LiveState::Draining { message_id }, LiveAction::PopPinned),
        (LiveState::Draining { message_id }, LiveEvent::Popped { head: popped }) =>
            match popped {
                Some(old) => (LiveState::Unpinning { message_id, old }, LiveAction::Unpin { message_id: old }),
                None => (LiveState::Pushing { message_id }, LiveAction::PushPinned { message_id }),
            },
        (LiveState::Unpinning { message_id, old }, LiveEvent::Acknowledged) =>
            (LiveState::DeletingOld { message_id, old }, LiveAction::Delete { message_id: old }),
        (LiveState::DeletingOld { message_id, .. }, LiveEvent::Acknowledged) =>
            (LiveState::Draining { message_id }, LiveAction::PopPinned),
        (LiveState::DeletingOld { message_id, .. }, LiveEvent::Failed) =>
            (LiveState::Draining { message_id }, LiveAction::PopPinned),
        (LiveState::Pushing { .. }, LiveEvent::Acknowledged) =>
            (LiveState::Done, LiveAction::Finish { ok: true }),
        (LiveState::Discarding { .. }, LiveEvent::Acknowledged) =>
            (LiveState::Done, LiveAction::Finish { ok: true }),
        _ => (LiveState::Done, LiveAction::Finish { ok: false }),
    }
}

/// Only the winner of the claim pins, silently, and popped ids are unpinned before the
/// push; a fresh message stays live, and its key lives, for the live period.
/// A pin is issued only on a won `SET NX`, so of the instances that race on one key
/// at most one pins. The push of the claimed id is issued only on an empty pop; a
/// popped id is answered by its unpin; and the machine leaves the unpinning state only
/// for the delete of that id, after the unpin was acknowledged, or to end with an error
/// (and then it pushes nothing).
pub proof fn lemma_pinned_queue_discipline(state: LiveState, event: LiveEvent)
    ensures
        step_spec(state, event).1 is Pin ==> state is Claiming && event == (LiveEvent::Claimed { won: true }),
        state matches LiveState::Claiming { message_id } ==> (event == (LiveEvent::Claimed { won: true })
            ==> step_spec(state, event).1 == (LiveAction::Pin { message_id, disable_notification: true })),
        step_spec(state, event).1 is SendLocation ==> step_spec(state, event).1 == (LiveAction::SendLocation {
            live_period_secs: LIVE_PERIOD_SECS,
        }),
        step_spec(state, event).1 matches LiveAction::Claim { expiry_secs, .. } ==> expiry_secs == LIVE_PERIOD_SECS,
        step_spec(state, event).1 is PushPinned ==> state is Draining
            && event == (LiveEvent::Popped { head: None }),
        event matches LiveEvent::Popped { head: Some(old) } ==> (state is Draining
            ==> step_spec(state, event).1 == (LiveAction::Unpin { message_id: old })),
        state matches LiveState::Unpinning { message_id, old } ==> {
            ||| event == LiveEvent::Acknowledged && step_spec(state, event) == (
                LiveState::DeletingOld { message_id, old },
                LiveAction::Delete { message_id: old },
            )
            ||| step_spec(state, event) == (LiveState::Done, LiveAction::Finish { ok: false })
        },
{
}

/// The store and the chat as the protocol sees them: the live-location key, the
/// pinned queue, the messages pinned in the chat, and the id the chat gives the next
/// message sent.
pub struct LiveWorld {
    pub live_id: Option<i64>,
    pub queue: Seq<i64>,
    pub pinned: Set<i64>,
    pub fresh: i64,
}

/// What an action does to the world when the call succeeds, and the reply.
pub open spec fn perform_spec(w: LiveWorld, action: LiveAction) -> (LiveWorld, LiveEvent) {
    match action {
        LiveAction::ReadLiveId => (w, LiveEvent::Stored { live_id: w.live_id }),
        LiveAction::SendLocation { .. } => (w, LiveEvent::Sent { message_id: w.fresh }),
        LiveAction::Claim { message_id, .. } => if w.live_id is None {
            (LiveWorld { live_id: Some(message_id), ..w }, LiveEvent::Claimed { won: true })
        } else {
            (w, LiveEvent::Claimed { won: false })
        },
        LiveAction::Pin { message_id, .. } => (
            LiveWorld { pinned: w.pinned.insert(message_id), ..w },
            LiveEvent::Acknowledged,
        ),
        LiveAction::PopPinned => if w.queue.len() == 0 {
            (w, LiveEvent::Popped { head: None })
        } else {
            (LiveWorld { queue: w.queue.drop_first(), ..w }, LiveEvent::Popped { head: Some(w.queue[0]) })
        },
        LiveAction::Unpin { message_id } => (
            LiveWorld { pinned: w.pinned.remove(message_id), ..w },
            LiveEvent::Acknowledged,
        ),
        LiveAction::PushPinned { message_id } => (
            LiveWorld { queue: w.queue.push(message_id), ..w },
            LiveEvent::Acknowledged,
        ),
        _ => (w, LiveEvent::Acknowledged),
    }
}

/// Runs the protocol for at most `fuel` actions, each answered by `perform_spec`: the
/// world afterwards and the last action.
pub open spec fn run_spec(w: LiveWorld, state: LiveState, action: LiveAction, fuel: nat) -> (LiveWorld, LiveAction)
    decreases fuel,
{
    if fuel == 0 || action is Finish {
        (w, action)
    } else {
        let (w2, event) = perform_spec(w, action);
        let (state2, action2) = step_spec(state, event);
        run_spec(w2, state2, action2, (fuel - 1) as nat)
    }
}

/// The actions a run performs, the last one included.
pub open spec fn actions_spec(w: LiveWorld, state: LiveState, action: LiveAction, fuel: nat) -> Seq<LiveAction>
    decreases fuel,
{
    if fuel == 0 || action is Finish {
        seq![action]
    } else {
        let (w2, event) = perform_spec(w, action);
        let (state2, action2) = step_spec(state, event);
        seq![action] + actions_spec(w2, state2, action2, (fuel - 1) as nat)
    }
}

/// Pop, unpin and delete each id of a queue, head first.
pub open spec fn drain_actions(queue: Seq<i64>) -> Seq<LiveAction>
    decreases queue.len(),
{
    if queue.len() == 0 {
        Seq::empty()
    } else {
        seq![
            LiveAction::PopPinned,
            LiveAction::Unpin { message_id: queue[0] },
            LiveAction::Delete { message_id: queue[0] },
        ] + drain_actions(queue.drop_first())
    }
}

/// The calls of a drain: each queued id is popped, unpinned and deleted in queue order,
/// then the empty pop, the push of the claimed id, and the end.
proof fn lemma_drain_actions(w: LiveWorld, message_id: i64)
    ensures
        actions_spec(w, LiveState::Draining { message_id }, LiveAction::PopPinned, 3 * w.queue.len() + 2)
            == drain_actions(w.queue) + seq![
            LiveAction::PopPinned,
            LiveAction::PushPinned { message_id },
            LiveAction::Finish { ok: true },
        ],
    decreases w.queue.len(),
{
    let n = w.queue.len();
    if n == 0 {
        let w2 = LiveWorld { queue: w.queue.push(message_id), ..w };
        assert(actions_spec(w2, LiveState::Done, LiveAction::Finish { ok: true }, 0) == seq![LiveAction::Finish { ok: true }]);
        assert(actions_spec(w, LiveState::Pushing { message_id }, LiveAction::PushPinned { message_id }, 1)
            == seq![LiveAction::PushPinned { message_id }] + seq![LiveAction::Finish { ok: true }]);
        assert(actions_spec(w, LiveState::Draining { message_id }, LiveAction::PopPinned, 2)
            == seq![LiveAction::PopPinned] + actions_spec(w, LiveState::Pushing { message_id }, LiveAction::PushPinned { message_id }, 1));
        assert(drain_actions(w.queue) =~= Seq::<LiveAction>::empty());
        assert(actions_spec(w, LiveState::Draining { message_id }, LiveAction::PopPinned, 2) =~= drain_actions(w.queue) + seq![
            LiveAction::PopPinned,
            LiveAction::PushPinned { message_id },
            LiveAction::Finish { ok: true },
        ]);
    } else {
        let old = w.queue[0];
        let w1 = LiveWorld { queue: w.queue.drop_first(), ..w };
        let w2 = LiveWorld { pinned: w1.pinned.remove(old), ..w1 };
        lemma_drain_actions(w2, message_id);
        let f = (3 * n + 2) as nat;
        assert(3 * (n - 1) + 2 == f - 3);
        let tail = actions_spec(w2, LiveState::Draining { message_id }, LiveAction::PopPinned, (f - 3) as nat);
        let a3 = actions_spec(w2, LiveState::DeletingOld { message_id, old }, LiveAction::Delete { message_id: old }, (f - 2) as nat);
        let a2 = actions_spec(w1, LiveState::Unpinning { message_id, old }, LiveAction::Unpin { message_id: old }, (f - 1) as nat);
        let a1 = actions_spec(w, LiveState::Draining { message_id }, LiveAction::PopPinned, f);
        assert(a3 == seq![LiveAction::Delete { message_id: old }] + tail);
        assert(a2 == seq![LiveAction::Unpin { message_id: old }] + a3);
        assert(a1 == seq![LiveAction::PopPinned] + a2);
        let end = seq![LiveAction::PopPinned, LiveAction::PushPinned { message_id }, LiveAction::Finish { ok: true }];
        assert(a1 =~= drain_actions(w.queue) + end);
    }
}

/// Draining a queue of `n` ids unpins each of them, then queues the claimed id alone.
proof fn lemma_drain(w: LiveWorld, message_id: i64)
    ensures
        run_spec(w, LiveState::Draining { message_id }, LiveAction::PopPinned, 3 * w.queue.len() + 2) == (
            LiveWorld {
                queue: seq![message_id],
                pinned: w.pinned.difference(w.queue.to_set()),
                ..w
            },
            LiveAction::Finish { ok: true },
        ),
    decreases w.queue.len(),
{
    let n = w.queue.len();
    if n == 0 {
        let w2 = LiveWorld { queue: w.queue.push(message_id), ..w };
        assert(run_spec(w, LiveState::Draining { message_id }, LiveAction::PopPinned, 2)
            == run_spec(w, LiveState::Pushing { message_id }, LiveAction::PushPinned { message_id }, 1));
        assert(run_spec(w, LiveState::Pushing { message_id }, LiveAction::PushPinned { message_id }, 1)
            == run_spec(w2, LiveState::Done, LiveAction::Finish { ok: true }, 0));
        assert(w.queue.push(message_id) =~= seq![message_id]);
        assert(w.pinned.difference(w.queue.to_set()) =~= w.pinned);
    } else {
        let old = w.queue[0];
        let w1 = LiveWorld { queue: w.queue.drop_first(), ..w };
        let w2 = LiveWorld { pinned: w1.pinned.remove(old), ..w1 };
        lemma_drain(w2, message_id);
        let f = (3 * n + 2) as nat;
        assert(run_spec(w, LiveState::Draining { message_id }, LiveAction::PopPinned, f)
            == run_spec(w1, LiveState::Unpinning { message_id, old }, LiveAction::Unpin { message_id: old }, (f - 1) as nat));
        assert(run_spec(w1, LiveState::Unpinning { message_id, old }, LiveAction::Unpin { message_id: old }, (f - 1) as nat)
            == run_spec(w2, LiveState::DeletingOld { message_id, old }, LiveAction::Delete { message_id: old }, (f - 2) as nat));
        assert(run_spec(w2, LiveState::DeletingOld { message_id, old }, LiveAction::Delete { message_id: old }, (f - 2) as nat)
            == run_spec(w2, LiveState::Draining { message_id }, LiveAction::PopPinned, (f - 3) as nat));
        assert(w.queue =~= seq![old] + w.queue.drop_first());
        assert(w.queue.to_set() =~= w.queue.drop_first().to_set().insert(old)) by {
            assert forall|x: i64| w.queue.to_set().contains(x) <==> w.queue.drop_first().to_set().insert(old).contains(x) by {
                if w.queue.to_set().contains(x) && x != old {
                    let i = choose|i: int| 0 <= i < w.queue.len() && w.queue[i] == x;
                    assert(w.queue.drop_first()[i - 1] == x);
                }
                if w.queue.drop_first().to_set().contains(x) {
                    let i = choose|i: int| 0 <= i < w.queue.drop_first().len() && w.queue.drop_first()[i] == x;
                    assert(w.queue[i + 1] == x);
                }
                if x == old {
                    assert(w.queue[0] == x);
                }
            }
        }
        assert(w2.pinned.difference(w2.queue.to_set()) =~= w.pinned.difference(w.queue.to_set()));
        assert(3 * (n - 1) + 2 == f - 3);
    }
}

/// One instance handling a position, where the live-location key is empty and every
/// call succeeds: it sends a fresh message, wins the claim, and ends with that message
/// the only one of the queue, pinned in the chat, and every earlier queued message
/// unpinned; so where the queue held exactly the pinned messages before, the fresh
/// message is the only pinned one after. The calls, in order: read the key, send the
/// location live for the live period, claim the key with that expiry, pin silently,
/// pop, unpin and delete each earlier id head first, pop the empty queue, push the
/// fresh id; `3 n + 6` actions for a queue of `n` ids.
pub proof fn lemma_winner_leaves_one_pinned(w: LiveWorld)
    requires
        w.live_id is None,
        !w.queue.contains(w.fresh),
    ensures
        run_spec(w, LiveState::Looking, LiveAction::ReadLiveId, 3 * w.queue.len() + 6) == (
            LiveWorld {
                live_id: Some(w.fresh),
                queue: seq![w.fresh],
                pinned: w.pinned.insert(w.fresh).difference(w.queue.to_set()),
                ..w
            },
            LiveAction::Finish { ok: true },
        ),
        w.pinned == w.queue.to_set() ==> w.pinned.insert(w.fresh).difference(w.queue.to_set()) == set![w.fresh],
        actions_spec(w, LiveState::Looking, LiveAction::ReadLiveId, 3 * w.queue.len() + 6) == seq![
            LiveAction::ReadLiveId,
            LiveAction::SendLocation { live_period_secs: LIVE_PERIOD_SECS },
            LiveAction::Claim { message_id: w.fresh, expiry_secs: LIVE_PERIOD_SECS },
            LiveAction::Pin { message_id: w.fresh, disable_notification: true },
        ] + drain_actions(w.queue) + seq![
            LiveAction::PopPinned,
            LiveAction::PushPinned { message_id: w.fresh },
            LiveAction::Finish { ok: true },
        ],
{
    let id = w.fresh;
    let n = w.queue.len();
    let w3 = LiveWorld { live_id: Some(id), ..w };
    let w4 = LiveWorld { pinned: w3.pinned.insert(id), ..w3 };
    lemma_drain(w4, id);
    lemma_drain_actions(w4, id);
    let g = (3 * n + 6) as nat;
    let d = actions_spec(w4, LiveState::Draining { message_id: id }, LiveAction::PopPinned, (g - 4) as nat);
    let c = actions_spec(w3, LiveState::Pinning { message_id: id }, LiveAction::Pin { message_id: id, disable_notification: true }, (g - 3) as nat);
    let b = actions_spec(w, LiveState::Claiming { message_id: id }, LiveAction::Claim { message_id: id, expiry_secs: LIVE_PERIOD_SECS }, (g - 2) as nat);
    let a = actions_spec(w, LiveState::Sending, LiveAction::SendLocation { live_period_secs: LIVE_PERIOD_SECS }, (g - 1) as nat);
    let z = actions_spec(w, LiveState::Looking, LiveAction::ReadLiveId, g);
    assert(c == seq![LiveAction::Pin { message_id: id, disable_notification: true }] + d);
    assert(b == seq![LiveAction::Claim { message_id: id, expiry_secs: LIVE_PERIOD_SECS }] + c);
    assert(a == seq![LiveAction::SendLocation { live_period_secs: LIVE_PERIOD_SECS }] + b);
    assert(z == seq![LiveAction::ReadLiveId] + a);
    assert(z =~= seq![
        LiveAction::ReadLiveId,
        LiveAction::SendLocation { live_period_secs: LIVE_PERIOD_SECS },
        LiveAction::Claim { message_id: id, expiry_secs: LIVE_PERIOD_SECS },
        LiveAction::Pin { message_id: id, disable_notification: true },
    ] + drain_actions(w.queue) + seq![
        LiveAction::PopPinned,
        LiveAction::PushPinned { message_id: id },
        LiveAction::Finish { ok: true },
    ]);
    let f = (3 * n + 6) as nat;
    assert(run_spec(w, LiveState::Looking, LiveAction::ReadLiveId, f)
        == run_spec(w, LiveState::Sending, LiveAction::SendLocation { live_period_secs: LIVE_PERIOD_SECS }, (f - 1) as nat));
    assert(run_spec(w, LiveState::Sending, LiveAction::SendLocation { live_period_secs: LIVE_PERIOD_SECS }, (f - 1) as nat)
        == run_spec(w, LiveState::Claiming { message_id: id }, LiveAction::Claim { message_id: id, expiry_secs: LIVE_PERIOD_SECS }, (f - 2) as nat));
    assert(run_spec(w, LiveState::Claiming { message_id: id }, LiveAction::Claim { message_id: id, expiry_secs: LIVE_PERIOD_SECS }, (f - 2) as nat)
        == run_spec(w3, LiveState::Pinning { message_id: id }, LiveAction::Pin { message_id: id, disable_notification: true }, (f - 3) as nat));
    assert(run_spec(w3, LiveState::Pinning { message_id: id }, LiveAction::Pin { message_id: id, disable_notification: true }, (f - 3) as nat)
        == run_spec(w4, LiveState::Draining { message_id: id }, LiveAction::PopPinned, (f - 4) as nat));
    if w.pinned == w.queue.to_set() {
        assert(w.pinned.insert(id).difference(w.queue.to_set()) =~= set![id]);
    }
}

/// An instance that loses the claim deletes its fresh message and touches neither the
/// pinned messages nor the queue.
pub proof fn lemma_loser_deletes_its_message(w: LiveWorld, message_id: i64)
    requires
        w.live_id is Some,
    ensures
        run_spec(w, LiveState::Claiming { message_id }, LiveAction::Claim { message_id, expiry_secs: LIVE_PERIOD_SECS }, 2) == (
            w,
            LiveAction::Finish { ok: true },
        ),
{
    assert(run_spec(w, LiveState::Claiming { message_id }, LiveAction::Claim { message_id, expiry_secs: LIVE_PERIOD_SECS }, 2)
        == run_spec(w, LiveState::Discarding { message_id }, LiveAction::Delete { message_id }, 1));
    assert(run_spec(w, LiveState::Discarding { message_id }, LiveAction::Delete { message_id }, 1)
        == run_spec(w, LiveState::Done, LiveAction::Finish { ok: true }, 0));
}

/// With a live-location message present, a position edits it in place: no message is
/// sent, pinned or queued.
pub proof fn lemma_present_message_is_edited(w: LiveWorld)
    requires
        w.live_id is Some,
    ensures
        run_spec(w, LiveState::Looking, LiveAction::ReadLiveId, 2) == (w, LiveAction::Finish { ok: true }),
        step_spec(LiveState::Looking, LiveEvent::Stored { live_id: w.live_id }).1 == (LiveAction::Edit {
            message_id: w.live_id.unwrap(),
        }),
{
    let id = w.live_id.unwrap();
    assert(run_spec(w, LiveState::Looking, LiveAction::ReadLiveId, 2)
        == run_spec(w, LiveState::Editing { message_id: id }, LiveAction::Edit { message_id: id }, 1));
    assert(run_spec(w, LiveState::Editing { message_id: id }, LiveAction::Edit { message_id: id }, 1)
        == run_spec(w, LiveState::Done, LiveAction::Finish { ok: true }, 0));
}

} // verus!
