//! Decisions of the simulation driver and of the loop supervisor.
//!
//! The driver itself sleeps and reads clocks, which stays in unverified
//! glue; the fixed-timestep accumulator arithmetic that decides whether a
//! tick is due lives here. Subtracting one frame instead of resetting the
//! accumulator preserves any surplus, so irregular wall-clock intervals do
//! not drift the tick rate.

use vstd::prelude::*;

verus! {

/// One simulation frame lasts this many microseconds: a 30 Hz tick rate.
pub const FRAME_TIME_MICROS: u64 = 33000;

/// What the simulation driver does next: run one physics tick, or sleep for
/// half a frame, carrying the accumulator either way.
#[derive(Clone, Copy, Debug, PartialEq, Eq, Structural)]
pub struct TimerDecision {
    pub run_tick: bool,
    pub accumulator: u64,
}

/// The accumulated time after `elapsed` more microseconds, saturating at
/// the top of the counter.
pub open spec fn accumulated(acc: int, elapsed: int) -> int {
    if acc + elapsed > u64::MAX {
        u64::MAX as int
    } else {
        acc + elapsed
    }
}

/// One step of the fixed-timestep accumulator: add the elapsed wall-clock
/// time; once more than one frame has accumulated, a tick is due and the
/// surplus is kept for the next iteration.
pub fn advance_timer(acc: u64, elapsed: u64) -> (d: TimerDecision)
    ensures
        d.run_tick == (accumulated(acc as int, elapsed as int) > FRAME_TIME_MICROS),
        d.run_tick ==> d.accumulator as int == accumulated(acc as int, elapsed as int)
            - FRAME_TIME_MICROS,
        !d.run_tick ==> d.accumulator as int == accumulated(acc as int, elapsed as int),
{
    let total: u64 = if elapsed > u64::MAX - acc {
        u64::MAX
    } else {
        acc + elapsed
    };
    if total > FRAME_TIME_MICROS {
        TimerDecision { run_tick: true, accumulator: total - FRAME_TIME_MICROS }
    } else {
        TimerDecision { run_tick: false, accumulator: total }
    }
}

/// The supervisor of one background loop. Its policy is immediate,
/// unconditional restart, forever: a failed loop instance is discarded and
/// a fresh one started, so the system has no fatal-crash path. Only a
/// count of restarts is kept, so tests can inject a bounded number of
/// failures and observe that a restart was ordered each time.
#[derive(Clone, Copy, Debug, PartialEq, Eq, Structural)]
pub struct Supervisor {
    pub restarts: u64,
}

impl Supervisor {
    /// A supervisor that has seen no failure yet.
    pub fn new() -> (s: Supervisor)
        ensures
            s.restarts == 0,
    {
        Supervisor { restarts: 0 }
    }

    /// Reports one failure of the supervised loop. The answer is always to
    /// restart; the count saturates rather than wrap.
    pub fn on_failure(&mut self) -> (restart: bool)
        ensures
            restart,
            old(self).restarts < u64::MAX ==> final(self).restarts == old(self).restarts + 1,
            old(self).restarts == u64::MAX ==> final(self).restarts == u64::MAX,
    {
        if self.restarts < u64::MAX {
            self.restarts = self.restarts + 1;
        }
        true
    }
}

} // verus!
