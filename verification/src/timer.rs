//! Timer phases and run states, and the clock that turns elapsed
//! milliseconds into whole timer ticks.
use vstd::prelude::*;

verus! {

/// The phase a pomodoro timer is in.
#[derive(Debug, Clone, Copy, PartialEq, Eq, Structural)]
pub enum TimerPhase {
    Focus,
    ShortBreak,
    LongBreak,
}

/// Whether the timer is counting down.
#[derive(Debug, Clone, Copy, PartialEq, Eq, Structural)]
pub enum TimerStatus {
    Idle,
    Running,
    Paused,
}

impl TimerPhase {
    pub open spec fn spec_label(self) -> Seq<char> {
        match self {
            TimerPhase::Focus => "Focus"@,
            TimerPhase::ShortBreak => "Short Break"@,
            TimerPhase::LongBreak => "Long Break"@,
        }
    }

    /// The phase name shown to people.
    pub fn label(self) -> (r: &'static str)
        ensures
            r@ == self.spec_label(),
    {
        match self {
            TimerPhase::Focus => "Focus",
            TimerPhase::ShortBreak => "Short Break",
            TimerPhase::LongBreak => "Long Break",
        }
    }

    pub open spec fn spec_id(self) -> Seq<char> {
        match self {
            TimerPhase::Focus => "focus"@,
            TimerPhase::ShortBreak => "short-break"@,
            TimerPhase::LongBreak => "long-break"@,
        }
    }

    /// The phase identifier used in machine-readable output.
    pub fn id(self) -> (r: &'static str)
        ensures
            r@ == self.spec_id(),
    {
        match self {
            TimerPhase::Focus => "focus",
            TimerPhase::ShortBreak => "short-break",
            TimerPhase::LongBreak => "long-break",
        }
    }
}

impl TimerStatus {
    pub open spec fn spec_id(self) -> Seq<char> {
        match self {
            TimerStatus::Idle => "idle"@,
            TimerStatus::Running => "running"@,
            TimerStatus::Paused => "paused"@,
        }
    }

    /// The status identifier used in machine-readable output.
    pub fn id(self) -> (r: &'static str)
        ensures
            r@ == self.spec_id(),
    {
        match self {
            TimerStatus::Idle => "idle",
            TimerStatus::Running => "running",
            TimerStatus::Paused => "paused",
        }
    }
}

/// Whole seconds that elapsed since the last tick, and whether more than one did.
#[derive(Debug, Clone, Copy, PartialEq, Eq, Structural)]
pub struct TimerElapsed {
    pub elapsed_secs: u64,
    pub is_catchup: bool,
}

/// Accumulates elapsed milliseconds and hands out whole seconds.
///
/// The accumulator always holds less than one second (`wf`).
#[derive(Debug, Clone, Copy, PartialEq, Eq)]
pub struct RuntimeClock {
    pub tick_rate_ms: u64,
    pub tick_accumulator_ms: u64,
}

impl RuntimeClock {
    pub open spec fn wf(self) -> bool {
        self.tick_accumulator_ms < 1000
    }

    /// A clock with an empty accumulator.
    pub fn new(tick_rate_ms: u64) -> (r: RuntimeClock)
        ensures
            r.tick_rate_ms == tick_rate_ms,
            r.tick_accumulator_ms == 0,
            r.wf(),
    {
        RuntimeClock { tick_rate_ms, tick_accumulator_ms: 0 }
    }

    /// Adds `elapsed_ms` while the timer runs and returns the whole seconds
    /// that completed; a stopped timer clears the accumulator.
    pub fn advance_by(&mut self, timer_running: bool, elapsed_ms: u64) -> (r: Option<TimerElapsed>)
        requires
            old(self).wf(),
        ensures
            final(self).wf(),
            final(self).tick_rate_ms == old(self).tick_rate_ms,
            !timer_running ==> final(self).tick_accumulator_ms == 0 && r is None,
            timer_running ==> {
                let total = old(self).tick_accumulator_ms + elapsed_ms;
                &&& final(self).tick_accumulator_ms == total % 1000
                &&& r == (if total / 1000 == 0 {
                    None
                } else {
                    Some(TimerElapsed { elapsed_secs: (total / 1000) as u64, is_catchup: total / 1000 > 1 })
                })
            },
    {
        if !timer_running {
            self.tick_accumulator_ms = 0;
            return None;
        }
        let carried = self.tick_accumulator_ms;
        let elapsed_secs = elapsed_ms / 1000 + (carried + elapsed_ms % 1000) / 1000;
        self.tick_accumulator_ms = (carried + elapsed_ms % 1000) % 1000;
        proof {
            let total = carried + elapsed_ms;
            assert(total / 1000 == elapsed_ms / 1000 + (carried + elapsed_ms % 1000) / 1000) by (nonlinear_arith)
                requires carried < 1000, total == carried + elapsed_ms;
            assert(total % 1000 == (carried + elapsed_ms % 1000) % 1000) by (nonlinear_arith)
                requires carried < 1000, total == carried + elapsed_ms;
        }
        if elapsed_secs == 0 {
            return None;
        }
        Some(TimerElapsed { elapsed_secs, is_catchup: elapsed_secs > 1 })
    }
}

/// Splitting elapsed time across two ticks of a running clock hands out
/// the same whole seconds, and leaves the same remainder, as one tick of
/// the sum: sub-second ticks accumulate.
pub proof fn lemma_clock_ticks_compose(acc: int, a: int, b: int)
    requires
        0 <= acc < 1000,
        0 <= a,
        0 <= b,
    ensures
        (acc + a) / 1000 + ((acc + a) % 1000 + b) / 1000 == (acc + a + b) / 1000,
        ((acc + a) % 1000 + b) % 1000 == (acc + a + b) % 1000,
{
    assert((acc + a) / 1000 + ((acc + a) % 1000 + b) / 1000 == (acc + a + b) / 1000) by (nonlinear_arith)
        requires 0 <= acc, 0 <= a, 0 <= b;
    assert(((acc + a) % 1000 + b) % 1000 == (acc + a + b) % 1000) by (nonlinear_arith)
        requires 0 <= acc, 0 <= a, 0 <= b;
}

} // verus!
