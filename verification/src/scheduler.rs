//! The scheduler: a fixed-cadence loop as an explicit state machine.
//!
//! The runtime owns the clock and the timer; it reports the time at each
//! step and performs the action handed back. The machine alternates between
//! `Working` (one cycle's poll-compare-publish is in flight) and `Idle`
//! (sleeping until a wake time). The wake time set at a cycle's end is that
//! end plus the configured interval, and a new cycle starts only once the
//! clock has reached it, so at least the interval elapses between the end
//! of one cycle's work and the start of the next, however long the work
//! itself took. There is no terminal state.

use vstd::prelude::*;

verus! {

/// The source's default cadence: two hours between cycle completions.
pub const DEFAULT_INTERVAL_SECONDS: u64 = 2 * 60 * 60;

/// Where the loop stands, in seconds of the runtime's clock.
#[derive(Clone, Copy, Debug, PartialEq, Eq, Structural)]
pub enum LoopState {
    /// Sleeping; no cycle work may start before `wake_at`.
    Idle { wake_at: u64 },
    /// One cycle's work is in flight.
    Working,
}

/// What the runtime must do after a step.
#[derive(Clone, Copy, Debug, PartialEq, Eq, Structural)]
pub enum LoopAction {
    /// Run one cycle: poll, compare, publish at most once.
    RunCycle,
    /// Sleep until the clock reaches `until`, then report back.
    SleepUntil { until: u64 },
    /// Too early; keep sleeping.
    KeepWaiting,
}

/// The scheduler's whole state: the configured cadence and where the loop
/// stands.
#[derive(Clone, Copy, Debug, PartialEq, Eq, Structural)]
pub struct Scheduler {
    pub interval_seconds: u64,
    pub state: LoopState,
}

/// A timer report at time `now` starts a cycle: the machine is idle and the
/// clock has reached the wake time.
pub open spec fn spec_starts_cycle(s: Scheduler, now: u64) -> bool {
    s.state matches LoopState::Idle { wake_at } && now >= wake_at
}

impl Scheduler {
    /// A fresh scheduler runs its first cycle immediately: the loop begins
    /// with work, not with a sleep.
    pub fn new(interval_seconds: u64) -> (r: Scheduler)
        ensures
            r.interval_seconds == interval_seconds,
            r.state == LoopState::Working,
    {
        Scheduler { interval_seconds, state: LoopState::Working }
    }

    /// One cycle's work ended at time `now`: go idle and have the runtime
    /// sleep until `now` plus the configured interval. The interval is
    /// measured from the end of the work, not wall-clock aligned.
    pub fn on_cycle_end(&mut self, now: u64) -> (action: LoopAction)
        requires
            old(self).state == LoopState::Working,
            now + old(self).interval_seconds <= u64::MAX,
        ensures
            final(self).interval_seconds == old(self).interval_seconds,
            final(self).state == (LoopState::Idle { wake_at: (now + old(self).interval_seconds) as u64 }),
            action == (LoopAction::SleepUntil { until: (now + old(self).interval_seconds) as u64 }),
    {
        let wake_at = now + self.interval_seconds;
        self.state = LoopState::Idle { wake_at };
        LoopAction::SleepUntil { until: wake_at }
    }

    /// The timer reports the clock has advanced to `now`: start the next
    /// cycle iff the wake time has been reached, else keep sleeping. Cycles
    /// never overlap: a machine already working is told to wait.
    pub fn on_timer(&mut self, now: u64) -> (action: LoopAction)
        ensures
            final(self).interval_seconds == old(self).interval_seconds,
            spec_starts_cycle(*old(self), now) ==> final(self).state == LoopState::Working
                && action == LoopAction::RunCycle,
            !spec_starts_cycle(*old(self), now) ==> *final(self) == *old(self) && action
                == LoopAction::KeepWaiting,
    {
        match self.state {
            LoopState::Idle { wake_at } => {
                if now >= wake_at {
                    self.state = LoopState::Working;
                    LoopAction::RunCycle
                } else {
                    LoopAction::KeepWaiting
                }
            },
            LoopState::Working => LoopAction::KeepWaiting,
        }
    }
}

/// Between the end of one cycle's work and the start of the next, at least
/// the configured interval elapses, regardless of how long the work took:
/// a scheduler left idle by `on_cycle_end` at time `t_end` only starts a
/// cycle at a time `t_start` no earlier than `t_end` plus the interval.
pub proof fn lemma_interval_between_cycles(s: Scheduler, t_end: u64, t_start: u64)
    requires
        t_end + s.interval_seconds <= u64::MAX,
        s.state == (LoopState::Idle { wake_at: (t_end + s.interval_seconds) as u64 }),
        spec_starts_cycle(s, t_start),
    ensures
        t_start >= t_end + s.interval_seconds,
{
}

} // verus!
