//! The rate limiter of the progress display.
//!
//! A [`Timer`] counts a fixed period down. Each update takes the time that has
//! passed since the previous one off the countdown; when more time has passed
//! than the countdown held, the timer goes off: it raises its ready flag and
//! starts the countdown again at the full period.

use vstd::prelude::*;
use std::time::Instant;

verus! {

/// The time between two reports, in nanoseconds: one second.
pub const REPORT_PERIOD_NANOS: u128 = 1_000_000_000;

/// What a [`Timer`] holds, all spans in nanoseconds.
pub struct TimerView {
    /// The time between the last two updates.
    pub delta: nat,
    /// How often the timer is meant to go off.
    pub period: nat,
    /// How much time is left until the timer goes off next.
    pub countdown: nat,
    /// Whether the timer has gone off and nobody has taken note yet.
    pub ready: bool,
}

impl TimerView {
    /// A timer that nothing has happened to yet: it is ready at once and has
    /// nothing left to count down.
    pub open spec fn fresh() -> TimerView {
        TimerView { delta: 0, period: REPORT_PERIOD_NANOS as nat, countdown: 0, ready: true }
    }

    /// Whether an update after `elapsed` nanoseconds makes the timer go off:
    /// the countdown cannot give that much.
    pub open spec fn expires_after(self, elapsed: nat) -> bool {
        elapsed > self.countdown
    }

    /// The timer after an update that found `elapsed` nanoseconds gone.
    pub open spec fn advanced(self, elapsed: nat) -> TimerView {
        if self.expires_after(elapsed) {
            TimerView { delta: elapsed, period: self.period, countdown: self.period, ready: true }
        } else {
            TimerView {
                delta: elapsed,
                period: self.period,
                countdown: (self.countdown - elapsed) as nat,
                ready: self.ready,
            }
        }
    }

    /// The timer once its ready flag has been taken note of.
    pub open spec fn acknowledged(self) -> TimerView {
        TimerView { ready: false, ..self }
    }
}

pub struct Timer {
    last_instant: Instant,
    delta: u128,
    period: u128,
    countdown: u128,
    ready: bool,
}

impl View for Timer {
    type V = TimerView;

    closed spec fn view(&self) -> TimerView {
        TimerView {
            delta: self.delta as nat,
            period: self.period as nat,
            countdown: self.countdown as nat,
            ready: self.ready,
        }
    }
}

impl Timer {
    /// A timer that starts now, with a period of one second. It is ready from
    /// the start, so that the first thing to report is reported without delay.
    pub fn new() -> (timer: Timer)
        ensures
            timer@ == TimerView::fresh(),
    {
        let now = Instant::now();
        Timer {
            last_instant: now,
            delta: 0,
            period: REPORT_PERIOD_NANOS,
            countdown: 0,
            ready: true,
        }
    }

    /// Reads the clock and advances the timer by the time that has passed
    /// since the previous update, or since the timer was made. That time is
    /// found in the delta afterwards.
    pub fn update(&mut self)
        ensures
            final(self)@ == old(self)@.advanced(final(self)@.delta),
    {
        let now = Instant::now();
        let span = now.saturating_duration_since(self.last_instant);
        let elapsed = span.as_nanos();
        self.last_instant = now;
        self.advance(elapsed);
    }

    /// Advances the timer by `elapsed` nanoseconds. Where the countdown holds
    /// at least that much, it gives it; where it does not, the timer goes off
    /// and the countdown starts again at the full period.
    pub fn advance(&mut self, elapsed: u128)
        ensures
            final(self)@ == old(self)@.advanced(elapsed as nat),
    {
        self.delta = elapsed;
        match self.countdown.checked_sub(elapsed) {
            Some(left) => {
                self.countdown = left;
            },
            None => {
                self.ready = true;
                self.countdown = self.period;
            },
        }
    }

    /// Takes note that the timer has gone off: lowers the ready flag.
    pub fn acknowledge(&mut self)
        ensures
            final(self)@ == old(self)@.acknowledged(),
    {
        self.ready = false;
    }

    /// Whether the timer has gone off since it was last acknowledged.
    pub fn is_ready(&self) -> (ready: bool)
        ensures
            ready == self@.ready,
    {
        self.ready
    }

    /// The time between the last two updates, in nanoseconds.
    pub fn delta(&self) -> (nanos: u128)
        ensures
            nanos == self@.delta,
    {
        self.delta
    }

    /// The period of the timer, in nanoseconds.
    pub fn period(&self) -> (nanos: u128)
        ensures
            nanos == self@.period,
    {
        self.period
    }

    /// The time left until the timer goes off next, in nanoseconds.
    pub fn countdown(&self) -> (nanos: u128)
        ensures
            nanos == self@.countdown,
    {
        self.countdown
    }
}

} // verus!
