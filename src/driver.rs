use vstd::prelude::*;

verus! {

/// What the plugin loop does after an update call.
#[derive(Copy, Clone, Debug, PartialEq, Eq, Structural)]
pub enum DriverAction {
    /// The connection is dead: leave the loop.
    Stop,
    /// Sleep this many nanoseconds, then update again.
    SleepFor(u64),
    /// The deadline has passed: update again at once.
    RunNow,
}

/// The deadline of the plugin loop's next update, in nanoseconds on a
/// monotonic clock.
#[derive(Copy, Clone, Debug, PartialEq, Eq, Structural)]
pub struct TickSchedule {
    pub next_tick: u64,
}

/// `a + b`, or the largest `u64` where the sum does not fit.
pub open spec fn saturating_sum(a: u64, b: u64) -> u64 {
    if a + b <= u64::MAX { (a + b) as u64 } else { u64::MAX }
}

/// The schedule and the action after an update, given the liveness flag read
/// after it, the tick interval that the plugin asks for now, and the time.
pub open spec fn schedule_step(s: TickSchedule, alive: bool, tick: u64, now: u64) -> (TickSchedule, DriverAction) {
    if !alive {
        (s, DriverAction::Stop)
    } else {
        let t = saturating_sum(s.next_tick, tick);
        if t >= now {
            (TickSchedule { next_tick: t }, DriverAction::SleepFor((t - now) as u64))
        } else {
            (TickSchedule { next_tick: now }, DriverAction::RunNow)
        }
    }
}

/// How many update calls the plugin loop makes, counting the one in progress,
/// when the checks that follow the calls read `obs` in turn: each holds the
/// liveness flag, the tick interval and the time.
pub open spec fn updates_made(s: TickSchedule, obs: Seq<(bool, u64, u64)>) -> nat
    decreases obs.len(),
{
    if obs.len() == 0 {
        1
    } else {
        let (next, action) = schedule_step(s, obs[0].0, obs[0].1, obs[0].2);
        if action is Stop {
            1
        } else {
            1 + updates_made(next, obs.drop_first())
        }
    }
}

impl TickSchedule {
    /// A schedule whose first deadline is `now`.
    pub fn new(now: u64) -> (r: TickSchedule)
        ensures
            r.next_tick == now,
    {
        TickSchedule { next_tick: now }
    }

    /// Decides what follows an update call: stop when the connection is
    /// dead; else move the deadline on by the tick interval and sleep until
    /// it, or, where it has passed already, take `now` as the deadline and
    /// update at once.
    pub fn after_update(&mut self, alive: bool, tick: u64, now: u64) -> (r: DriverAction)
        ensures
            (*final(self), r) == schedule_step(*old(self), alive, tick, now),
    {
        if !alive {
            return DriverAction::Stop;
        }
        let t = self.next_tick.saturating_add(tick);
        if t >= now {
            self.next_tick = t;
            DriverAction::SleepFor(t - now)
        } else {
            self.next_tick = now;
            DriverAction::RunNow
        }
    }
}

/// Once the connection is marked dead before check `k` (so that check and
/// every later one reads the flag as false), the plugin loop makes at most
/// one update call after that mark: `k + 1` in all.
pub proof fn lemma_dead_stops_within_one_update(s: TickSchedule, obs: Seq<(bool, u64, u64)>, k: int)
    requires
        0 <= k < obs.len(),
        forall|j: int| k <= j < obs.len() ==> !(#[trigger] obs[j]).0,
    ensures
        updates_made(s, obs) <= k + 1,
    decreases k,
{
    if k > 0 {
        let (next, action) = schedule_step(s, obs[0].0, obs[0].1, obs[0].2);
        if !(action is Stop) {
            let rest = obs.drop_first();
            assert forall|j: int| k - 1 <= j < rest.len() implies !(#[trigger] rest[j]).0 by {
                assert(rest[j] == obs[j + 1]);
            }
            lemma_dead_stops_within_one_update(next, rest, k - 1);
        }
    }
}

} // verus!
