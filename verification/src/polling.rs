//! Scheduling of one polling tick: on each tick the monitoring command is
//! written to every tracked meter, one after the other, fire-and-forget.
//! The schedule takes note of whether the previous write failed only to
//! ignore it, so a failed write to one meter can never keep a later meter
//! from being written to in the same tick.

use vstd::prelude::*;

verus! {

/// Progress through one polling tick: the index of the next meter to
/// write to, out of how many are tracked.
pub struct PollTick {
    /// Index of the next meter the tick will target.
    pub next: usize,
    /// How many meters the tick covers.
    pub total: usize,
}

/// One scheduling step of a tick: the state afterwards and the meter to
/// write to, if any are left. The outcome of the previous write is taken
/// and ignored: the schedule never depends on it.
pub open spec fn tick_step(t: PollTick, prev_write_failed: bool) -> (PollTick, Option<int>) {
    if t.next < t.total {
        (PollTick { next: (t.next + 1) as usize, total: t.total }, Some(t.next as int))
    } else {
        (t, None)
    }
}

/// Every meter the tick will still target, in order.
pub open spec fn tick_remaining_targets(t: PollTick) -> Seq<int>
    decreases t.total - t.next,
{
    if t.next < t.total {
        seq![t.next as int] + tick_remaining_targets(tick_step(t, false).0)
    } else {
        Seq::<int>::empty()
    }
}

impl PollTick {
    /// Begin a tick over `n_devices` meters, none written to yet.
    pub fn begin(n_devices: usize) -> (t: Self)
        ensures
            t.next == 0,
            t.total == n_devices,
    {
        PollTick { next: 0, total: n_devices }
    }

    /// The meter to write the monitoring command to next, advancing the
    /// tick; `None` once every meter has been targeted. Whether the
    /// previous write failed changes nothing.
    pub fn next_target(&mut self, prev_write_failed: bool) -> (r: Option<usize>)
        ensures
            ({
                let (after, target) = tick_step(*old(self), prev_write_failed);
                &&& *final(self) == after
                &&& match r {
                    Some(i) => target == Some(i as int),
                    None => target is None,
                }
            }),
    {
        if self.next < self.total {
            let i = self.next;
            self.next = self.next + 1;
            Some(i)
        } else {
            None
        }
    }
}

/// A failed write changes nothing about the rest of the tick: from any
/// tick state, the next meter targeted and the state afterwards are the
/// same whether the previous write failed or succeeded.
pub proof fn lemma_tick_ignores_write_outcome(t: PollTick)
    ensures
        tick_step(t, true) == tick_step(t, false),
{
}

/// A tick begun over `n` meters targets every one of them: meter `i` is
/// the `i`-th target of the tick, for each `i` below `n`.
pub proof fn lemma_tick_targets_every_device(t: PollTick)
    requires
        t.next <= t.total,
    ensures
        tick_remaining_targets(t).len() == t.total - t.next,
        forall|k: int|
            0 <= k < tick_remaining_targets(t).len()
                ==> tick_remaining_targets(t)[k] == t.next + k,
    decreases t.total - t.next,
{
    if t.next < t.total {
        lemma_tick_targets_every_device(tick_step(t, false).0);
    }
}

} // verus!
