//! The reporting stage: the running total and the decision when to show it.
//!
//! The stage takes byte counts from its channel one by one. Each count moves
//! the timer on and is added to the running total; where the display is not
//! silenced and the timer is ready, the stage asks for one progress line. The
//! count zero is the sentinel that ends the stage.
//!
//! The stage never writes by itself: each step says what the caller owes the
//! diagnostic stream.

use vstd::prelude::*;
use crossbeam::channel::Receiver;
use std::time::Instant;
use crate::channel::take;
use crate::timer::{Timer, TimerView, REPORT_PERIOD_NANOS};

verus! {

/// The figures of one progress line.
#[derive(Clone, Copy, Debug, PartialEq, Eq, Structural)]
pub struct Progress {
    /// All bytes counted so far, the count that caused this line included.
    pub total: usize,
    /// Whole seconds since the stage was started.
    pub uptime_secs: u64,
    /// The count that caused this line.
    pub count: usize,
    /// The time between that count and the one before it, in nanoseconds.
    /// The count over this span is the momentary rate.
    pub delta_nanos: u128,
}

/// What the caller owes the diagnostic stream after one step of the stage.
#[derive(Clone, Copy, Debug, PartialEq, Eq, Structural)]
pub enum StatsStep {
    /// Nothing is to be shown. The stage goes on.
    Quiet,
    /// One progress line is to be drawn over the current line. The stage goes
    /// on.
    Render(Progress),
    /// The stage has ended. Where `newline` holds, the display is closed with
    /// one line break.
    Finished { newline: bool },
}

/// Why the stage could not take a step.
#[derive(Clone, Copy, Debug, PartialEq, Eq, Structural)]
pub enum StatsError {
    /// The count channel was closed before the sentinel arrived.
    ChannelClosed,
    /// The count would take the running total beyond `usize::MAX`.
    TotalOverflow,
}

/// What the reporting stage holds.
pub struct StatsView {
    /// Whether the display is silenced.
    pub silent: bool,
    /// The running total: all bytes counted so far.
    pub total: nat,
    /// The timer that spaces the progress lines.
    pub timer: TimerView,
    /// Whether the sentinel has been seen.
    pub done: bool,
}

impl StatsView {
    /// The stage at its start: nothing counted, the timer fresh.
    pub open spec fn fresh(silent: bool) -> StatsView {
        StatsView { silent, total: 0, timer: TimerView::fresh(), done: false }
    }

    /// Whether the running total fits the machine word, as that of every
    /// stage does.
    pub open spec fn fits(self) -> bool {
        self.total <= usize::MAX
    }

    /// The stage after its timer has been moved on by `elapsed` nanoseconds.
    pub open spec fn waited(self, elapsed: nat) -> StatsView {
        StatsView { timer: self.timer.advanced(elapsed), ..self }
    }

    /// Whether `count` cannot be added to the running total.
    pub open spec fn overflows(self, count: usize) -> bool {
        self.total + count > usize::MAX
    }

    /// Whether a progress line is due for `count`: the stage is running, the
    /// count is no sentinel and can be added, the display is not silenced and
    /// the timer is ready.
    pub open spec fn renders(self, count: usize) -> bool {
        &&& !self.done
        &&& count != 0
        &&& !self.overflows(count)
        &&& !self.silent
        &&& self.timer.ready
    }

    /// The stage after `count` has been accounted for.
    pub open spec fn accounted(self, count: usize) -> StatsView {
        if self.done || self.overflows(count) {
            self
        } else if count == 0 {
            StatsView { done: true, ..self }
        } else if self.renders(count) {
            StatsView {
                total: (self.total + count) as nat,
                timer: self.timer.acknowledged(),
                ..self
            }
        } else {
            StatsView { total: (self.total + count) as nat, ..self }
        }
    }

    /// What accounting for `count` asks of the caller, `uptime_secs` seconds
    /// after the start of the stage.
    pub open spec fn answer(self, count: usize, uptime_secs: u64) -> Result<StatsStep, StatsError> {
        if self.done {
            Ok(StatsStep::Finished { newline: false })
        } else if self.overflows(count) {
            Err(StatsError::TotalOverflow)
        } else if count == 0 {
            Ok(StatsStep::Finished { newline: !self.silent })
        } else if self.renders(count) {
            Ok(
                StatsStep::Render(
                    Progress {
                        total: (self.total + count) as usize,
                        uptime_secs,
                        count,
                        delta_nanos: self.timer.delta as u128,
                    },
                ),
            )
        } else {
            Ok(StatsStep::Quiet)
        }
    }

    /// The stage after a count that arrived `elapsed` nanoseconds after the
    /// one before it. A stage that has ended, and one that cannot take the
    /// count, does not follow the time either.
    pub open spec fn observed(self, count: usize, elapsed: nat) -> StatsView {
        if self.done || self.overflows(count) {
            self
        } else {
            self.waited(elapsed).accounted(count)
        }
    }

    /// What the count asks of the caller in that case.
    pub open spec fn observation(self, count: usize, elapsed: nat, uptime_secs: u64) -> Result<
        StatsStep,
        StatsError,
    > {
        self.waited(elapsed).answer(count, uptime_secs)
    }
}

/// Whether a step leaves the diagnostic stream untouched.
pub open spec fn shows_nothing(step: Result<StatsStep, StatsError>) -> bool {
    match step {
        Ok(StatsStep::Quiet) => true,
        Ok(StatsStep::Render(_)) => false,
        Ok(StatsStep::Finished { newline }) => !newline,
        Err(_) => true,
    }
}

/// The reporting stage.
pub struct Stats {
    silent: bool,
    total: usize,
    start: Instant,
    timer: Timer,
    done: bool,
}

impl View for Stats {
    type V = StatsView;

    closed spec fn view(&self) -> StatsView {
        StatsView {
            silent: self.silent,
            total: self.total as nat,
            timer: self.timer@,
            done: self.done,
        }
    }
}

impl Stats {
    /// A stage that starts now, with nothing counted.
    pub fn new(silent: bool) -> (stats: Stats)
        ensures
            stats@ == StatsView::fresh(silent),
    {
        let start = Instant::now();
        Stats { silent, total: 0, start, timer: Timer::new(), done: false }
    }

    /// Takes the next count from the channel and accounts for it, with the
    /// time as the clock gives it. A stage that has ended leaves the channel
    /// alone. A channel that is closed with no count left is an error and
    /// changes nothing.
    pub fn receive(&mut self, rx: &Receiver<usize>) -> (step: Result<StatsStep, StatsError>)
        ensures
            old(self)@.done ==> final(self)@ == old(self)@ && step == Ok::<StatsStep, StatsError>(
                StatsStep::Finished { newline: false },
            ),
            step == Err::<StatsStep, StatsError>(StatsError::ChannelClosed) ==> final(self)@ == old(
                self,
            )@,
            step != Err::<StatsStep, StatsError>(StatsError::ChannelClosed) ==> exists|
                count: usize,
                elapsed: u128,
                uptime_secs: u64,
            |
                {
                    &&& final(self)@ == old(self)@.observed(count, elapsed as nat)
                    &&& step == old(self)@.observation(count, elapsed as nat, uptime_secs)
                },
            old(self)@.silent ==> shows_nothing(step),
    {
        if self.done {
            assert(self@ == self@.observed(0, 0u128 as nat));
            assert(self@.observation(0, 0u128 as nat, 0) == Ok::<StatsStep, StatsError>(
                StatsStep::Finished { newline: false },
            ));
            return Ok(StatsStep::Finished { newline: false });
        }
        match take(rx) {
            None => Err(StatsError::ChannelClosed),
            Some(count) => {
                if self.admits(count) {
                    self.timer.update();
                }
                let elapsed = self.timer.delta();
                let uptime_secs = Instant::now().saturating_duration_since(self.start).as_secs();
                let step = self.account(count, uptime_secs);
                assert(self@ == old(self)@.observed(count, elapsed as nat));
                assert(step == old(self)@.observation(count, elapsed as nat, uptime_secs));
                step
            },
        }
    }

    /// Accounts for a count that arrived `elapsed` nanoseconds after the one
    /// before it, `uptime_secs` seconds after the start of the stage: moves
    /// the timer on, then does as [`Stats::account`] does. No time is taken
    /// note of where the stage has ended or cannot take the count.
    pub fn observe(&mut self, count: usize, elapsed: u128, uptime_secs: u64) -> (step: Result<
        StatsStep,
        StatsError,
    >)
        ensures
            final(self)@ == old(self)@.observed(count, elapsed as nat),
            step == old(self)@.observation(count, elapsed as nat, uptime_secs),
            old(self)@.silent ==> shows_nothing(step),
    {
        if !self.done && self.admits(count) {
            self.timer.advance(elapsed);
        }
        self.account(count, uptime_secs)
    }

    /// Accounts for one count, the timer being up to date. The count is added
    /// to the running total. The count zero ends the stage, and asks for the
    /// closing line break unless the display is silenced. Any other count
    /// asks for a progress line where the display is not silenced and the
    /// timer is ready, and takes note of the timer. A count that the total
    /// cannot take is an error and changes nothing, and a stage that has ended
    /// stays as it is.
    pub fn account(&mut self, count: usize, uptime_secs: u64) -> (step: Result<
        StatsStep,
        StatsError,
    >)
        ensures
            final(self)@ == old(self)@.accounted(count),
            step == old(self)@.answer(count, uptime_secs),
            old(self)@.silent ==> shows_nothing(step),
    {
        if self.done {
            return Ok(StatsStep::Finished { newline: false });
        }
        let total = match self.total.checked_add(count) {
            Some(total) => total,
            None => {
                return Err(StatsError::TotalOverflow);
            },
        };
        self.total = total;
        if count == 0 {
            self.done = true;
            return Ok(StatsStep::Finished { newline: !self.silent });
        }
        if !self.silent && self.timer.is_ready() {
            self.timer.acknowledge();
            Ok(
                StatsStep::Render(
                    Progress { total, uptime_secs, count, delta_nanos: self.timer.delta() },
                ),
            )
        } else {
            Ok(StatsStep::Quiet)
        }
    }

    /// The running total of a stage fits the machine word.
    pub proof fn lemma_total_fits(&self)
        ensures
            self@.fits(),
    {
    }

    /// Whether the running total can take `count`.
    fn admits(&self, count: usize) -> (fits: bool)
        ensures
            fits == !self@.overflows(count),
    {
        count <= usize::MAX - self.total
    }

    /// All bytes counted so far.
    pub fn total(&self) -> (total: usize)
        ensures
            total == self@.total,
    {
        self.total
    }

    /// Whether the sentinel has been seen.
    pub fn is_done(&self) -> (done: bool)
        ensures
            done == self@.done,
    {
        self.done
    }

    /// Whether the display is silenced.
    pub fn is_silent(&self) -> (silent: bool)
        ensures
            silent == self@.silent,
    {
        self.silent
    }
}

/// The bytes that `counts` add up to.
pub open spec fn bytes_in(counts: Seq<usize>) -> nat
    decreases counts.len(),
{
    if counts.len() == 0 {
        0
    } else {
        bytes_in(counts.drop_last()) + counts.last() as nat
    }
}

/// The time from the arrival of count `from` to the arrival of count `to`,
/// where count `k` arrives `gaps[k]` nanoseconds after the one before it.
pub open spec fn time_between(gaps: Seq<nat>, from: int, to: int) -> nat
    decreases to - from,
{
    if to <= from {
        0
    } else {
        time_between(gaps, from, to - 1) + gaps[to]
    }
}

impl StatsView {
    /// The stage just before count `k` of a run arrives: the counts before it
    /// have arrived in order, count `i` after `gaps[i]` nanoseconds.
    pub open spec fn before(self, counts: Seq<usize>, gaps: Seq<nat>, k: nat) -> StatsView
        recommends
            k <= counts.len() == gaps.len(),
        decreases k,
    {
        if k == 0 {
            self
        } else {
            self.before(counts, gaps, (k - 1) as nat).observed(counts[k - 1], gaps[k - 1])
        }
    }

    /// The stage after all counts of a run have arrived.
    pub open spec fn after(self, counts: Seq<usize>, gaps: Seq<nat>) -> StatsView
        recommends
            counts.len() == gaps.len(),
    {
        self.before(counts, gaps, counts.len())
    }

    /// What count `k` of a run asks of the caller.
    pub open spec fn step_at(
        self,
        counts: Seq<usize>,
        gaps: Seq<nat>,
        k: nat,
        uptime_secs: u64,
    ) -> Result<StatsStep, StatsError>
        recommends
            k < counts.len() == gaps.len(),
    {
        self.before(counts, gaps, k).observation(counts[k as int], gaps[k as int], uptime_secs)
    }

    /// Whether count `k` of a run gets a progress line.
    pub open spec fn renders_at(self, counts: Seq<usize>, gaps: Seq<nat>, k: nat) -> bool
        recommends
            k < counts.len() == gaps.len(),
    {
        self.before(counts, gaps, k).waited(gaps[k as int]).renders(counts[k as int])
    }
}

/// A step asks for a progress line exactly where one is due, and then the
/// line shows the total with the count added.
pub proof fn lemma_render_is_answer(s: StatsView, count: usize, uptime_secs: u64)
    ensures
        s.renders(count) <==> s.answer(count, uptime_secs) matches Ok(StatsStep::Render(_)),
        s.answer(count, uptime_secs) matches Ok(StatsStep::Render(line)) ==> {
            &&& line.total == s.total + count
            &&& s.accounted(count).total == line.total
            &&& line.count == count
            &&& line.uptime_secs == uptime_secs
        },
{
}

/// The first count of a stage that is not silenced gets a progress line,
/// however little time has passed, unless it is the sentinel. The line shows
/// that count as the total.
pub proof fn lemma_first_count_renders(count: usize, elapsed: nat, uptime_secs: u64)
    requires
        count != 0,
    ensures
        StatsView::fresh(false).waited(elapsed).renders(count),
        StatsView::fresh(false).observation(count, elapsed, uptime_secs) == Ok::<
            StatsStep,
            StatsError,
        >(
            StatsStep::Render(
                Progress { total: count, uptime_secs, count, delta_nanos: elapsed as u128 },
            ),
        ),
{
}

/// The running total never falls: a count that a running stage can take is
/// added to it, and nothing else changes it.
pub proof fn lemma_total_never_falls(s: StatsView, count: usize, elapsed: nat)
    ensures
        s.observed(count, elapsed).total >= s.total,
        s.done || s.overflows(count) ==> s.observed(count, elapsed).total == s.total,
        !s.done && !s.overflows(count) ==> s.observed(count, elapsed).total == s.total + count,
        s.fits() ==> s.observed(count, elapsed).fits(),
{
}

/// The sentinel ends a running stage and never gets a progress line. It asks
/// for the closing line break exactly where the display is not silenced, and
/// it leaves the total as it is. Whatever arrives after it asks for nothing.
pub proof fn lemma_sentinel_ends_stage(
    s: StatsView,
    elapsed: nat,
    uptime_secs: u64,
    later: usize,
    later_elapsed: nat,
)
    requires
        s.fits(),
        !s.done,
    ensures
        !s.waited(elapsed).renders(0),
        s.observation(0, elapsed, uptime_secs) == Ok::<StatsStep, StatsError>(
            StatsStep::Finished { newline: !s.silent },
        ),
        s.observed(0, elapsed).done,
        s.observed(0, elapsed).total == s.total,
        s.observed(0, elapsed).observed(later, later_elapsed) == s.observed(0, elapsed),
        shows_nothing(s.observed(0, elapsed).observation(later, later_elapsed, uptime_secs)),
{
}

/// The closing line break is asked for once at most: by the sentinel that
/// ends a running stage, where the display is not silenced, and by no other
/// step.
pub proof fn lemma_newline_only_at_sentinel(s: StatsView, count: usize, uptime_secs: u64)
    requires
        s.fits(),
    ensures
        s.answer(count, uptime_secs) == Ok::<StatsStep, StatsError>(
            StatsStep::Finished { newline: true },
        ) <==> !s.done && !s.silent && count == 0,
        s.answer(count, uptime_secs) matches Ok(StatsStep::Finished { .. }) <==> s.done || count
            == 0,
{
}

/// A silenced stage never asks for anything to be shown, at any point of any
/// run.
pub proof fn lemma_silent_run_shows_nothing(
    counts: Seq<usize>,
    gaps: Seq<nat>,
    k: nat,
    uptime_secs: u64,
)
    requires
        k < counts.len() == gaps.len(),
    ensures
        shows_nothing(StatsView::fresh(true).step_at(counts, gaps, k, uptime_secs)),
{
    lemma_silence_is_kept(StatsView::fresh(true), counts, gaps, k);
}

/// Whether a stage is silenced never changes in a run.
pub proof fn lemma_silence_is_kept(s: StatsView, counts: Seq<usize>, gaps: Seq<nat>, k: nat)
    requires
        k <= counts.len() == gaps.len(),
    ensures
        s.before(counts, gaps, k).silent == s.silent,
    decreases k,
{
    if k > 0 {
        lemma_silence_is_kept(s, counts, gaps, (k - 1) as nat);
    }
}

/// The running total is the exact sum of the counts that have arrived, as
/// long as no sentinel is among them and the sum fits the machine word.
pub proof fn lemma_total_is_sum(silent: bool, counts: Seq<usize>, gaps: Seq<nat>)
    requires
        counts.len() == gaps.len(),
        forall|i: int| 0 <= i < counts.len() ==> counts[i] != 0,
        bytes_in(counts) <= usize::MAX,
    ensures
        StatsView::fresh(silent).after(counts, gaps).total == bytes_in(counts),
        !StatsView::fresh(silent).after(counts, gaps).done,
{
    assert(counts.take(counts.len() as int) =~= counts);
    lemma_total_of_prefix(silent, counts, gaps, counts.len());
}

/// The running total before count `k` of a run is the sum of the counts
/// before it, under the conditions of [`lemma_total_is_sum`].
pub proof fn lemma_total_of_prefix(silent: bool, counts: Seq<usize>, gaps: Seq<nat>, k: nat)
    requires
        k <= counts.len() == gaps.len(),
        forall|i: int| 0 <= i < k ==> counts[i] != 0,
        bytes_in(counts.take(k as int)) <= usize::MAX,
    ensures
        StatsView::fresh(silent).before(counts, gaps, k).total == bytes_in(counts.take(k as int)),
        !StatsView::fresh(silent).before(counts, gaps, k).done,
    decreases k,
{
    if k > 0 {
        assert(counts.take(k as int).drop_last() =~= counts.take(k - 1));
        assert(counts.take(k as int).last() == counts[k - 1]);
        lemma_total_of_prefix(silent, counts, gaps, (k - 1) as nat);
    }
}

/// Two progress lines of one run are more than the report period apart. The
/// one case left out is an earlier line that is drawn for the very first
/// count with no time gone since the start: the countdown has not begun then.
pub proof fn lemma_renders_are_spaced(
    silent: bool,
    counts: Seq<usize>,
    gaps: Seq<nat>,
    i: nat,
    j: nat,
)
    requires
        counts.len() == gaps.len(),
        i < j < counts.len(),
        StatsView::fresh(silent).renders_at(counts, gaps, i),
        StatsView::fresh(silent).renders_at(counts, gaps, j),
        i > 0 || gaps[0] > 0,
    ensures
        time_between(gaps, i as int, j as int) > REPORT_PERIOD_NANOS,
{
    let s = StatsView::fresh(silent);
    lemma_silence_is_kept(s, counts, gaps, i);
    lemma_timer_is_acknowledged(counts, gaps, i);
    lemma_timer_is_acknowledged(counts, gaps, j);
    lemma_countdown_covers_period(counts, gaps, i, (j - 1) as nat);
}

/// Two progress lines of one run never fall on the same instant, whenever the
/// first count arrives.
pub proof fn lemma_renders_are_apart(
    silent: bool,
    counts: Seq<usize>,
    gaps: Seq<nat>,
    i: nat,
    j: nat,
)
    requires
        counts.len() == gaps.len(),
        i < j < counts.len(),
        StatsView::fresh(silent).renders_at(counts, gaps, i),
        StatsView::fresh(silent).renders_at(counts, gaps, j),
    ensures
        time_between(gaps, i as int, j as int) > 0,
{
    lemma_silence_is_kept(StatsView::fresh(silent), counts, gaps, j);
    lemma_timer_is_acknowledged(counts, gaps, j);
}

/// In a run of a stage that is not silenced, the timer is never left ready
/// once a count has arrived, and it keeps its period.
proof fn lemma_timer_is_acknowledged(counts: Seq<usize>, gaps: Seq<nat>, k: nat)
    requires
        k <= counts.len() == gaps.len(),
    ensures
        StatsView::fresh(false).before(counts, gaps, k).timer.period == REPORT_PERIOD_NANOS,
        !StatsView::fresh(false).before(counts, gaps, k).silent,
        k > 0 && !StatsView::fresh(false).before(counts, gaps, k).done ==> !StatsView::fresh(
            false,
        ).before(counts, gaps, k).timer.ready,
    decreases k,
{
    if k > 0 {
        lemma_timer_is_acknowledged(counts, gaps, (k - 1) as nat);
    }
}

/// After a progress line for count `i`, the countdown and the time gone since
/// that count add up to the period at least, up to any later count `k`.
proof fn lemma_countdown_covers_period(counts: Seq<usize>, gaps: Seq<nat>, i: nat, k: nat)
    requires
        counts.len() == gaps.len(),
        i <= k < counts.len(),
        StatsView::fresh(false).renders_at(counts, gaps, i),
        i > 0 || gaps[0] > 0,
    ensures
        StatsView::fresh(false).before(counts, gaps, k + 1).timer.countdown + time_between(
            gaps,
            i as int,
            k as int,
        ) >= REPORT_PERIOD_NANOS,
    decreases k,
{
    let s = StatsView::fresh(false);
    lemma_timer_is_acknowledged(counts, gaps, k);
    if k > i {
        lemma_countdown_covers_period(counts, gaps, i, (k - 1) as nat);
    }
}

} // verus!
