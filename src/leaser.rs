//! The bot update leaser: one long poll at a time across the fleet, and a durable
//! read offset that moves before each update is handled.

use vstd::prelude::*;

verus! {

/// What an instance does after trying to take the poll lease with
/// `SET get_updates_key = host EX poll_timeout NX`.
#[derive(Clone, Copy, Debug, PartialEq, Eq, Structural)]
pub enum LeaseAction {
    /// The lease is ours: poll.
    Poll,
    /// Another instance polls: sleep this many milliseconds, then try again.
    Sleep { millis: u64 },
}

/// Decides after a claim of the lease. `remaining_millis` is the lease's `PTTL`, read
/// when the claim failed; a negative one (the key is gone, or has no expiry) is taken
/// as zero. The sleep lasts one millisecond past the lease.
pub fn after_claim(acquired: bool, remaining_millis: i64) -> (r: LeaseAction)
    ensures
        acquired ==> r == LeaseAction::Poll,
        !acquired && remaining_millis >= 0 ==> r == (LeaseAction::Sleep { millis: (remaining_millis + 1) as u64 }),
        !acquired && remaining_millis < 0 ==> r == (LeaseAction::Sleep { millis: 1 }),
{
    if acquired {
        LeaseAction::Poll
    } else if remaining_millis >= 0 {
        LeaseAction::Sleep { millis: remaining_millis as u64 + 1 }
    } else {
        LeaseAction::Sleep { millis: 1 }
    }
}

/// The stored read offset of a bot: the next update id to ask for.
pub struct UpdateOffset {
    pub next: u64,
}

impl UpdateOffset {
    /// The offset as read from the store; an absent key reads as 0.
    pub fn from_stored(stored: Option<u64>) -> (r: Self)
        ensures
            r.next == match stored {
                Some(n) => n,
                None => 0,
            },
    {
        UpdateOffset {
            next: match stored {
                Some(n) => n,
                None => 0,
            },
        }
    }

    /// Records an update before its handler runs, so that an update whose handling
    /// fails is not asked for again: the offset becomes the update's id plus one.
    pub fn record(&mut self, update_id: u64)
        requires
            update_id < u64::MAX,
        ensures
            final(self).next == update_id + 1,
    {
        self.next = update_id + 1;
    }

    /// Records a batch of updates, in server order; returns the offsets written, one
    /// per update and before its handler.
    pub fn record_batch(&mut self, update_ids: &Vec<u64>) -> (r: Vec<u64>)
        requires
            forall|i: int| 0 <= i < update_ids@.len() ==> #[trigger] update_ids@[i] < u64::MAX,
        ensures
            r@.len() == update_ids@.len(),
            forall|i: int| 0 <= i < r@.len() ==> r@[i] == update_ids@[i] + 1,
            final(self).next == if update_ids@.len() == 0 {
                old(self).next as int
            } else {
                update_ids@.last() + 1
            },
    {
        let mut written: Vec<u64> = Vec::new();
        let mut i: usize = 0;
        while i < update_ids.len()
            invariant
                i <= update_ids@.len(),
                forall|k: int| 0 <= k < update_ids@.len() ==> #[trigger] update_ids@[k] < u64::MAX,
                written@.len() == i,
                forall|k: int| 0 <= k < i ==> written@[k] == update_ids@[k] + 1,
                self.next == if i == 0 {
                    old(self).next as int
                } else {
                    update_ids@[i - 1] + 1
                },
            decreases update_ids@.len() - i,
        {
            self.record(update_ids[i]);
            written.push(self.next);
            i = i + 1;
        }
        written
    }
}

/// Update ids strictly ascend from `offset` on, and each has a successor: the server
/// hands out updates in order, from the offset asked for.
pub open spec fn ascending_from(offset: u64, ids: Seq<u64>) -> bool {
    &&& forall|i: int, j: int| 0 <= i < j < ids.len() ==> ids[i] < ids[j]
    &&& forall|i: int| 0 <= i < ids.len() ==> offset <= #[trigger] ids[i] < u64::MAX
}

/// The offsets written for a batch never go down, and after an update is handled the
/// offset is above its id; for a batch that the server handed out in order from the
/// stored offset.
pub proof fn lemma_offsets_monotone(offset: u64, ids: Seq<u64>, written: Seq<u64>)
    requires
        ascending_from(offset, ids),
        written.len() == ids.len(),
        forall|i: int| 0 <= i < written.len() ==> written[i] == ids[i] + 1,
    ensures
        forall|i: int| 0 <= i < written.len() ==> offset < #[trigger] written[i],
        forall|i: int, j: int| 0 <= i < j < written.len() ==> written[i] < written[j],
        forall|i: int, j: int| 0 <= i <= j < written.len() ==> written[j] >= ids[i] + 1,
{
    assert forall|i: int, j: int| 0 <= i <= j < written.len() implies written[j] >= ids[i] + 1 by {
        if i < j {
            assert(ids[i] < ids[j]);
        }
    }
}

/// Where a poll round of one instance stands.
#[derive(Clone, Copy, Debug, PartialEq, Eq, Structural)]
pub enum PollState {
    /// The lease is being claimed with `SET NX EX`.
    Claiming,
    /// The lease's remaining time is being read with `PTTL`.
    Measuring,
    /// The instance sleeps until the other's lease runs out.
    Sleeping,
    /// The stored offset is being read.
    ReadingOffset,
    /// The long poll from `offset` is running.
    Polling { offset: u64 },
    /// The next update of the batch is being taken; `offset` is the last one written.
    Draining { offset: u64 },
    /// The offset past `update_id` is being written.
    Persisting { update_id: u64 },
    /// An update is being handled; `offset` is the one written for it.
    Handling { offset: u64 },
    /// The lease is being deleted.
    Releasing,
    /// The round is over.
    Done,
}

/// A reply to the last action of a poll round.
#[derive(Clone, Copy, Debug, PartialEq, Eq, Structural)]
pub enum PollEvent {
    /// Whether `SET NX` wrote the lease.
    Claimed { acquired: bool },
    /// The lease's `PTTL`, in milliseconds.
    Remaining { millis: i64 },
    /// The stored offset, if any.
    Offset { stored: Option<u64> },
    /// The next update of the batch, if any is left.
    Next { update_id: Option<u64> },
    /// The call succeeded (or the sleep ended).
    Acknowledged,
    /// The call failed.
    Failed,
}

/// What an instance does next in a poll round.
#[derive(Clone, Copy, Debug, PartialEq, Eq, Structural)]
pub enum PollAction {
    /// `SET get_updates_key = host EX poll_timeout NX`.
    Claim,
    /// `PTTL get_updates_key`.
    ReadRemaining,
    /// Sleep, then claim again.
    Sleep { millis: u64 },
    /// `GET offset_key`.
    ReadOffset,
    /// Long-poll the message updates from `offset` on.
    GetUpdates { offset: u64 },
    /// Take the next update of the batch.
    NextUpdate,
    /// `SET offset_key = offset`.
    PersistOffset { offset: u64 },
    /// Run the handler of an update; its failure is reported and does not stop the round.
    Handle { update_id: u64 },
    /// `DEL get_updates_key`.
    Release,
    /// The round is over, successfully or not.
    Finish { ok: bool },
}

/// How long to sleep after a lost claim: one millisecond past the lease's `PTTL`, a
/// negative one counting as zero.
pub open spec fn sleep_millis_spec(remaining_millis: i64) -> u64 {
    if remaining_millis >= 0 {
        (remaining_millis + 1) as u64
    } else {
        1
    }
}

/// The transition table of a poll round.
pub open spec fn poll_step_spec(state: PollState, event: PollEvent) -> (PollState, PollAction) {
    match (state, event) {
        (PollState::Claiming, PollEvent::Claimed { acquired: true }) => (PollState::ReadingOffset, PollAction::ReadOffset),
        (PollState::Claiming, PollEvent::Claimed { acquired: false }) => (PollState::Measuring, PollAction::ReadRemaining),
        (PollState::Measuring, PollEvent::Remaining { millis }) =>
            (PollState::Sleeping, PollAction::Sleep { millis: sleep_millis_spec(millis) }),
        (PollState::Sleeping, PollEvent::Acknowledged) => (PollState::Claiming, PollAction::Claim),
        (PollState::ReadingOffset, PollEvent::Offset { stored }) => {
            let offset = match stored {
                Some(o) => o,
                None => 0,
            };
            (PollState::Polling { offset }, PollAction::GetUpdates { offset })
        },
        (PollState::Polling { offset }, PollEvent::Acknowledged) => (PollState::Draining { offset }, PollAction::NextUpdate),
        // The offset past an update is written before its handler runs; an id without
        // a successor is skipped.
        (PollState::Draining { offset }, PollEvent::Next { update_id: Some(id) }) => if id < u64::MAX {
            (PollState::Persisting { update_id: id }, PollAction::PersistOffset { offset: (id + 1) as u64 })
        } else {
            (PollState::Draining { offset }, PollAction::NextUpdate)
        },
        (PollState::Draining { .. }, PollEvent::Next { update_id: None }) => (PollState::Releasing, PollAction::Release),
        (PollState::Persisting { update_id }, PollEvent::Acknowledged) => if update_id < u64::MAX {
            (PollState::Handling { offset: (update_id + 1) as u64 }, PollAction::Handle { update_id })
        } else {
            (PollState::Done, PollAction::Finish { ok: false })
        },
        (PollState::Handling { offset }, PollEvent::Acknowledged) => (PollState::Draining { offset }, PollAction::NextUpdate),
        (PollState::Handling { offset }, PollEvent::Failed) => (PollState::Draining { offset }, PollAction::NextUpdate),
        (PollState::Releasing, PollEvent::Acknowledged) => (PollState::Done, PollAction::Finish { ok: true }),
        _ => (PollState::Done, PollAction::Finish { ok: false }),
    }
}

/// The first state and action of a poll round.
pub fn start_poll() -> (r: (PollState, PollAction))
    ensures
        r == (PollState::Claiming, PollAction::Claim),
{
    (PollState::Claiming, PollAction::Claim)
}

/// The next state and action of a poll round, given the reply to the last action.
pub fn poll_step(state: PollState, event: PollEvent) -> (r: (PollState, PollAction))
    ensures
        r == poll_step_spec(state, event),
{
    match (state, event) {
        (PollState::Claiming, PollEvent::Claimed { acquired }) => if acquired {
            (PollState::ReadingOffset, PollAction::ReadOffset)
        } else {
            (PollState::Measuring, PollAction::ReadRemaining)
        },
        (PollState::Measuring, PollEvent::Remaining { millis }) => match after_claim(false, millis) {
            LeaseAction::Sleep { millis } => (PollState::Sleeping, PollAction::Sleep { millis }),
            LeaseAction::Poll => (PollState::Done, PollAction::Finish { ok: false }),
        },
        (PollState::Sleeping, PollEvent::Acknowledged) => (PollState::Claiming, PollAction::Claim),
        (PollState::ReadingOffset, PollEvent::Offset { stored }) => {
            let offset = UpdateOffset::from_stored(stored).next;
            (PollState::Polling { offset }, PollAction::GetUpdates { offset })
        },
        (PollState::Polling { offset }, PollEvent::Acknowledged) => (PollState::Draining { offset }, PollAction::NextUpdate),
        (PollState::Draining { offset }, PollEvent::Next { update_id }) => match update_id {
            Some(id) => if id < u64::MAX {
                (PollState::Persisting { update_id: id }, PollAction::PersistOffset { offset: id + 1 })
            } else {
                (PollState::Draining { offset }, PollAction::NextUpdate)
            },
            None => (PollState::Releasing, PollAction::Release),
        },
        (PollState::Persisting { update_id }, PollEvent::Acknowledged) => if update_id < u64::MAX {
            (PollState::Handling { offset: update_id + 1 }, PollAction::Handle { update_id })
        } else {
            (PollState::Done, PollAction::Finish { ok: false })
        },
        (PollState::Handling { offset }, PollEvent::Acknowledged) => (PollState::Draining { offset }, PollAction::NextUpdate),
        (PollState::Handling { offset }, PollEvent::Failed) => (PollState::Draining { offset }, PollAction::NextUpdate),
        (PollState::Releasing, PollEvent::Acknowledged) => (PollState::Done, PollAction::Finish { ok: true }),
        _ => (PollState::Done, PollAction::Finish { ok: false }),
    }
}

/// The order of a poll round. An update is handled only after the offset past it was
/// written; the offset written for an update is its id plus one, so above the last one
/// written where the server hands out ids in order; the lease is deleted only after the
/// batch is exhausted, a clean poll; and an instance that lost the claim reads the
/// lease's remaining time, sleeps one millisecond past it, and claims again.
pub proof fn lemma_poll_round_order(state: PollState, event: PollEvent)
    ensures
        poll_step_spec(state, event).1 matches PollAction::Handle { update_id } ==> state == (PollState::Persisting {
            update_id,
        }) && event == PollEvent::Acknowledged && poll_step_spec(state, event).0 == (PollState::Handling {
            offset: (update_id + 1) as u64,
        }),
        poll_step_spec(state, event).1 matches PollAction::PersistOffset { offset } ==> (state is Draining
            && (event matches PollEvent::Next { update_id: Some(id) } && offset == id + 1)),
        state matches PollState::Draining { offset: last } ==> (event matches PollEvent::Next {
            update_id: Some(id),
        } ==> (last <= id < u64::MAX ==> poll_step_spec(state, event).1 == (PollAction::PersistOffset {
            offset: (id + 1) as u64,
        }) && id + 1 > last)),
        poll_step_spec(state, event).1 is Release ==> state is Draining && event == (PollEvent::Next {
            update_id: None,
        }),
        state is Claiming && event == (PollEvent::Claimed { acquired: false }) ==> poll_step_spec(state, event) == (
            PollState::Measuring,
            PollAction::ReadRemaining,
        ),
        event matches PollEvent::Remaining { millis } ==> (state is Measuring ==> poll_step_spec(state, event)
            == (PollState::Sleeping, PollAction::Sleep { millis: sleep_millis_spec(millis) })),
        state is Sleeping && event == PollEvent::Acknowledged ==> poll_step_spec(state, event) == (
            PollState::Claiming,
            PollAction::Claim,
        ),
        state is Claiming && event == (PollEvent::Claimed { acquired: true }) ==> poll_step_spec(state, event) == (
            PollState::ReadingOffset,
            PollAction::ReadOffset,
        ),
{
}

/// The store and the chat cloud as one instance's poll round sees them: whether the
/// lease is free, the `PTTL` another holder's lease shows, the stored offset, and the
/// batch the poll returns. A sleep past the other's lease finds it gone (released or
/// expired).
pub struct PollWorld {
    pub lease_free: bool,
    pub remaining_millis: i64,
    pub stored: Option<u64>,
    pub batch: Seq<u64>,
}

/// What an action does to the world when the call succeeds, and the reply.
pub open spec fn poll_perform_spec(w: PollWorld, action: PollAction) -> (PollWorld, PollEvent) {
    match action {
        PollAction::Claim => if w.lease_free {
            (PollWorld { lease_free: false, ..w }, PollEvent::Claimed { acquired: true })
        } else {
            (w, PollEvent::Claimed { acquired: false })
        },
        PollAction::ReadRemaining => (w, PollEvent::Remaining { millis: w.remaining_millis }),
        PollAction::Sleep { .. } => (PollWorld { lease_free: true, ..w }, PollEvent::Acknowledged),
        PollAction::ReadOffset => (w, PollEvent::Offset { stored: w.stored }),
        PollAction::NextUpdate => if w.batch.len() == 0 {
            (w, PollEvent::Next { update_id: None })
        } else {
            (PollWorld { batch: w.batch.drop_first(), ..w }, PollEvent::Next { update_id: Some(w.batch[0]) })
        },
        PollAction::PersistOffset { offset } => (PollWorld { stored: Some(offset), ..w }, PollEvent::Acknowledged),
        PollAction::Release => (PollWorld { lease_free: true, ..w }, PollEvent::Acknowledged),
        _ => (w, PollEvent::Acknowledged),
    }
}

/// Runs a poll round for at most `fuel` actions: the world afterwards and the actions,
/// the last one included.
pub open spec fn poll_run_spec(w: PollWorld, state: PollState, action: PollAction, fuel: nat) -> (PollWorld, Seq<PollAction>)
    decreases fuel,
{
    if fuel == 0 || action is Finish {
        (w, seq![action])
    } else {
        let (w2, event) = poll_perform_spec(w, action);
        let (state2, action2) = poll_step_spec(state, event);
        let (w3, rest) = poll_run_spec(w2, state2, action2, (fuel - 1) as nat);
        (w3, seq![action] + rest)
    }
}

/// For each update of a batch: take it, write the offset past it, handle it.
pub open spec fn handling_actions(batch: Seq<u64>) -> Seq<PollAction>
    decreases batch.len(),
{
    if batch.len() == 0 {
        Seq::empty()
    } else {
        seq![
            PollAction::NextUpdate,
            PollAction::PersistOffset { offset: (batch[0] + 1) as u64 },
            PollAction::Handle { update_id: batch[0] },
        ] + handling_actions(batch.drop_first())
    }
}

/// The stored offset after a batch is handled.
pub open spec fn stored_after(stored: Option<u64>, batch: Seq<u64>) -> Option<u64> {
    if batch.len() == 0 {
        stored
    } else {
        Some((batch.last() + 1) as u64)
    }
}

/// Whether every id of a batch has a successor.
pub open spec fn below_max(batch: Seq<u64>) -> bool {
    forall|i: int| 0 <= i < batch.len() ==> #[trigger] batch[i] < u64::MAX
}

proof fn lemma_handle_batch(w: PollWorld, last: u64)
    requires
        below_max(w.batch),
    ensures
        poll_run_spec(w, PollState::Draining { offset: last }, PollAction::NextUpdate, 3 * w.batch.len() + 2) == (
            PollWorld { lease_free: true, stored: stored_after(w.stored, w.batch), batch: Seq::empty(), ..w },
            handling_actions(w.batch) + seq![
                PollAction::NextUpdate,
                PollAction::Release,
                PollAction::Finish { ok: true },
            ],
        ),
    decreases w.batch.len(),
{
    let n = w.batch.len();
    let end = seq![PollAction::NextUpdate, PollAction::Release, PollAction::Finish { ok: true }];
    if n == 0 {
        let w2 = PollWorld { lease_free: true, ..w };
        assert(poll_run_spec(w2, PollState::Done, PollAction::Finish { ok: true }, 0) == (w2, seq![PollAction::Finish { ok: true }]));
        let r1 = poll_run_spec(w, PollState::Releasing, PollAction::Release, 1);
        assert(r1 == (w2, seq![PollAction::Release] + seq![PollAction::Finish { ok: true }]));
        let r0 = poll_run_spec(w, PollState::Draining { offset: last }, PollAction::NextUpdate, 2);
        assert(r0 == (r1.0, seq![PollAction::NextUpdate] + r1.1));
        assert(handling_actions(w.batch) =~= Seq::<PollAction>::empty());
        assert(r0.1 =~= handling_actions(w.batch) + end);
        assert(w2 == PollWorld { lease_free: true, stored: stored_after(w.stored, w.batch), batch: Seq::empty(), ..w }) by {
            assert(w.batch =~= Seq::<u64>::empty());
        }
    } else {
        let id = w.batch[0];
        assert(id < u64::MAX);
        let w1 = PollWorld { batch: w.batch.drop_first(), ..w };
        let w2 = PollWorld { stored: Some((id + 1) as u64), ..w1 };
        assert(below_max(w2.batch)) by {
            assert forall|i: int| 0 <= i < w2.batch.len() implies #[trigger] w2.batch[i] < u64::MAX by {
                assert(w2.batch[i] == w.batch[i + 1]);
            }
        }
        lemma_handle_batch(w2, (id + 1) as u64);
        let f = (3 * n + 2) as nat;
        assert(3 * (n - 1) + 2 == f - 3);
        let tail = poll_run_spec(w2, PollState::Draining { offset: (id + 1) as u64 }, PollAction::NextUpdate, (f - 3) as nat);
        let r3 = poll_run_spec(w2, PollState::Handling { offset: (id + 1) as u64 }, PollAction::Handle { update_id: id }, (f - 2) as nat);
        let r2 = poll_run_spec(w1, PollState::Persisting { update_id: id }, PollAction::PersistOffset { offset: (id + 1) as u64 }, (f - 1) as nat);
        let r1 = poll_run_spec(w, PollState::Draining { offset: last }, PollAction::NextUpdate, f);
        assert(r3 == (tail.0, seq![PollAction::Handle { update_id: id }] + tail.1));
        assert(r2 == (r3.0, seq![PollAction::PersistOffset { offset: (id + 1) as u64 }] + r3.1));
        assert(r1 == (r2.0, seq![PollAction::NextUpdate] + r2.1));
        assert(r1.1 =~= handling_actions(w.batch) + end);
        assert(stored_after(w2.stored, w2.batch) == stored_after(w.stored, w.batch)) by {
            if n > 1 {
                assert(w2.batch.last() == w.batch.last());
            }
        }
    }
}

/// A round of the instance that finds the lease free: it claims it, reads the stored
/// offset (0 when absent), polls from there, writes the offset past each update before
/// handling it, and deletes the lease once the batch is exhausted. Afterwards the lease
/// is free and the stored offset is past the last update.
pub proof fn lemma_clean_round(w: PollWorld)
    requires
        w.lease_free,
        below_max(w.batch),
    ensures
        ({
            let offset = match w.stored {
                Some(o) => o,
                None => 0,
            };
            poll_run_spec(w, PollState::Claiming, PollAction::Claim, 3 * w.batch.len() + 5) == (
                PollWorld { lease_free: true, stored: stored_after(w.stored, w.batch), batch: Seq::empty(), ..w },
                seq![PollAction::Claim, PollAction::ReadOffset, PollAction::GetUpdates { offset }]
                    + handling_actions(w.batch) + seq![
                    PollAction::NextUpdate,
                    PollAction::Release,
                    PollAction::Finish { ok: true },
                ],
            )
        }),
{
    let offset = match w.stored {
        Some(o) => o,
        None => 0,
    };
    let n = w.batch.len();
    let f = (3 * n + 5) as nat;
    let w1 = PollWorld { lease_free: false, ..w };
    lemma_handle_batch(w1, offset);
    let d = poll_run_spec(w1, PollState::Draining { offset }, PollAction::NextUpdate, (f - 3) as nat);
    let c = poll_run_spec(w1, PollState::Polling { offset }, PollAction::GetUpdates { offset }, (f - 2) as nat);
    let b = poll_run_spec(w1, PollState::ReadingOffset, PollAction::ReadOffset, (f - 1) as nat);
    let a = poll_run_spec(w, PollState::Claiming, PollAction::Claim, f);
    assert(c == (d.0, seq![PollAction::GetUpdates { offset }] + d.1));
    assert(b == (c.0, seq![PollAction::ReadOffset] + c.1));
    assert(a == (b.0, seq![PollAction::Claim] + b.1));
    assert(a.1 =~= seq![PollAction::Claim, PollAction::ReadOffset, PollAction::GetUpdates { offset }]
        + handling_actions(w.batch) + seq![
        PollAction::NextUpdate,
        PollAction::Release,
        PollAction::Finish { ok: true },
    ]);
}

/// Lease contention: an instance whose claim fails reads the other's `PTTL`, sleeps
/// one millisecond past it, claims again once the lease is gone, and then runs a clean
/// round.
pub proof fn lemma_contended_claim(w: PollWorld)
    requires
        !w.lease_free,
        below_max(w.batch),
    ensures
        ({
            let w2 = PollWorld { lease_free: true, ..w };
            let a = poll_run_spec(w, PollState::Claiming, PollAction::Claim, 3 * w.batch.len() + 8);
            let b = poll_run_spec(w2, PollState::Claiming, PollAction::Claim, 3 * w.batch.len() + 5);
            a == (b.0, seq![
                PollAction::Claim,
                PollAction::ReadRemaining,
                PollAction::Sleep { millis: sleep_millis_spec(w.remaining_millis) },
            ] + b.1)
        }),
{
    let n = w.batch.len();
    let f = (3 * n + 8) as nat;
    let w2 = PollWorld { lease_free: true, ..w };
    let b = poll_run_spec(w2, PollState::Claiming, PollAction::Claim, (f - 3) as nat);
    let s = PollAction::Sleep { millis: sleep_millis_spec(w.remaining_millis) };
    let r2 = poll_run_spec(w, PollState::Sleeping, s, (f - 2) as nat);
    let r1 = poll_run_spec(w, PollState::Measuring, PollAction::ReadRemaining, (f - 1) as nat);
    let r0 = poll_run_spec(w, PollState::Claiming, PollAction::Claim, f);
    assert(r2 == (b.0, seq![s] + b.1));
    assert(r1 == (r2.0, seq![PollAction::ReadRemaining] + r2.1));
    assert(r0 == (r1.0, seq![PollAction::Claim] + r1.1));
    assert(r0.1 =~= seq![PollAction::Claim, PollAction::ReadRemaining, s] + b.1);
}

} // verus!
