//! The day/night clock: a repeating timer, the four phases of the day, and
//! the light of the sky as an exact fraction.

use vstd::prelude::*;
use vstd::arithmetic::div_mod::{lemma_add_mod_noop_right, lemma_mod_self_0, lemma_small_mod};

verus! {

/// Length of a day in clock ticks. A tick is a microsecond.
pub const DAY_DURATION: u32 = 60_000_000;

/// Light of the sky at full day, in hundredths.
pub const DAY_LIGHT_LEVEL: i32 = 150;

/// Light of the sky at night, in hundredths.
pub const NIGHT_LIGHT_LEVEL: i32 = 60;

/// The four phases of a day.
#[derive(Clone, Copy, Debug, PartialEq, Eq, Structural)]
pub enum DayPhase {
    Dawn,
    Day,
    Dusk,
    Night,
}

/// The phase at `elapsed` ticks into a day of `period` ticks. With
/// `t = elapsed / period` the day is dawn while `t <= 0.10`, day while
/// `t <= 0.35`, dusk while `t <= 0.45`, and night after that.
pub open spec fn spec_phase(elapsed: int, period: int) -> DayPhase {
    if 10 * elapsed <= period {
        DayPhase::Dawn
    } else if 20 * elapsed <= 7 * period {
        DayPhase::Day
    } else if 20 * elapsed <= 9 * period {
        DayPhase::Dusk
    } else {
        DayPhase::Night
    }
}

/// `a + (b - a) * ratio` for the ratio `numer / denom`, multiplied by
/// `denom`.
pub open spec fn spec_lerp(a: int, b: int, numer: int, denom: int) -> int {
    a * denom + (b - a) * numer
}

/// Linear interpolation from `a` to `b` at the ratio `numer / denom`. The
/// result is the interpolated value multiplied by `denom`.
pub fn lerp(a: i32, b: i32, numer: i64, denom: i64) -> (scaled: i128)
    ensures
        scaled == spec_lerp(a as int, b as int, numer as int, denom as int),
{
    let start: i128 = a as i128;
    let span: i128 = b as i128 - a as i128;
    assert(-0x8000_0000 * 0x8000_0000_0000_0000 <= start * denom <= 0x8000_0000 * 0x8000_0000_0000_0000)
        by (nonlinear_arith)
        requires
            -0x8000_0000 <= start <= 0x8000_0000,
            -0x8000_0000_0000_0000 <= denom <= 0x8000_0000_0000_0000,
    ;
    assert(-0x1_0000_0000 * 0x8000_0000_0000_0000 <= span * numer <= 0x1_0000_0000 * 0x8000_0000_0000_0000)
        by (nonlinear_arith)
        requires
            -0x1_0000_0000 <= span <= 0x1_0000_0000,
            -0x8000_0000_0000_0000 <= numer <= 0x8000_0000_0000_0000,
    ;
    start * (denom as i128) + span * (numer as i128)
}

/// A light level as an exact fraction, `numer / denom`.
#[derive(Clone, Copy, Debug, PartialEq, Eq, Structural)]
pub struct LightLevel {
    pub numer: u128,
    pub denom: u128,
}

/// Light of the sky at `elapsed` ticks into a day of `period` ticks, in
/// units of `1 / (200 * period)`: it rises in a straight line from the night
/// level to the day level during dawn, stays at the day level, falls in a
/// straight line during dusk, and stays at the night level.
pub open spec fn spec_brightness(elapsed: int, period: int) -> int {
    match spec_phase(elapsed, period) {
        DayPhase::Dawn => spec_lerp(NIGHT_LIGHT_LEVEL as int, DAY_LIGHT_LEVEL as int, 20 * elapsed, 2 * period),
        DayPhase::Day => DAY_LIGHT_LEVEL * (2 * period),
        DayPhase::Dusk => spec_lerp(
            DAY_LIGHT_LEVEL as int,
            NIGHT_LIGHT_LEVEL as int,
            20 * elapsed - 7 * period,
            2 * period,
        ),
        DayPhase::Night => NIGHT_LIGHT_LEVEL * (2 * period),
    }
}

/// How strongly torches shine at `elapsed` ticks into a day of `period`
/// ticks, in units of `1 / (2 * period)`: the mirror image of the sky, from
/// one at night down to nothing by day.
pub open spec fn spec_torch_multiplier(elapsed: int, period: int) -> int {
    match spec_phase(elapsed, period) {
        DayPhase::Dawn => spec_lerp(1, 0, 20 * elapsed, 2 * period),
        DayPhase::Day => 0,
        DayPhase::Dusk => spec_lerp(0, 1, 20 * elapsed - 7 * period, 2 * period),
        DayPhase::Night => 2 * period,
    }
}

/// The event that a tick from `before` to `after` ticks into the day sends:
/// the start of the phase entered, if the phase changed.
pub open spec fn spec_event(before: int, after: int, period: int) -> Option<DayPhase> {
    if spec_phase(after, period) != spec_phase(before, period) {
        Some(spec_phase(after, period))
    } else {
        None
    }
}

/// A timer that runs through the day again and again.
pub struct DayNightCycle {
    period: u32,
    elapsed: u32,
}

impl DayNightCycle {
    /// Length of the day in ticks.
    pub closed spec fn spec_period(&self) -> int {
        self.period as int
    }

    /// Ticks since the day began.
    pub closed spec fn spec_elapsed(&self) -> int {
        self.elapsed as int
    }

    /// The day has a length and the clock is within the day.
    pub closed spec fn wf(&self) -> bool {
        0 <= self.elapsed < self.period
    }

    /// The clock of a well-formed cycle lies within its day, and a day is
    /// at most `u32::MAX` ticks long.
    pub proof fn lemma_bounds(&self)
        requires
            self.wf(),
        ensures
            0 <= self.spec_elapsed() < self.spec_period() <= u32::MAX,
    {
    }

    /// A clock at the start of a day of `day_duration` ticks.
    pub fn new(day_duration: u32) -> (cycle: DayNightCycle)
        requires
            day_duration > 0,
        ensures
            cycle.wf(),
            cycle.spec_period() == day_duration,
            cycle.spec_elapsed() == 0,
    {
        DayNightCycle { period: day_duration, elapsed: 0 }
    }

    /// Length of the day in ticks.
    pub fn period(&self) -> (p: u32)
        ensures
            p == self.spec_period(),
    {
        self.period
    }

    /// Ticks since the day began.
    pub fn elapsed(&self) -> (e: u32)
        ensures
            e == self.spec_elapsed(),
    {
        self.elapsed
    }

    /// The current phase of the day.
    pub fn phase(&self) -> (phase: DayPhase)
        requires
            self.wf(),
        ensures
            phase == spec_phase(self.spec_elapsed(), self.spec_period()),
    {
        let e: u64 = self.elapsed as u64;
        let d: u64 = self.period as u64;
        if 10 * e <= d {
            DayPhase::Dawn
        } else if 20 * e <= 7 * d {
            DayPhase::Day
        } else if 20 * e <= 9 * d {
            DayPhase::Dusk
        } else {
            DayPhase::Night
        }
    }

    /// Advances the clock by `delta` ticks, wrapping at the end of the day.
    /// Returns the start of a phase if the clock is now in another phase than
    /// before; phases that a long tick jumps over send nothing.
    pub fn tick(&mut self, delta: u64) -> (event: Option<DayPhase>)
        requires
            old(self).wf(),
        ensures
            final(self).wf(),
            final(self).spec_period() == old(self).spec_period(),
            final(self).spec_elapsed() == (old(self).spec_elapsed() + delta) % old(self).spec_period(),
            event == spec_event(
                old(self).spec_elapsed(),
                final(self).spec_elapsed(),
                old(self).spec_period(),
            ),
    {
        let before: DayPhase = self.phase();
        let d: u64 = self.period as u64;
        let next: u64 = (self.elapsed as u64 + delta % d) % d;
        proof {
            lemma_add_mod_noop_right(self.elapsed as int, delta as int, d as int);
        }
        self.elapsed = next as u32;
        let after: DayPhase = self.phase();
        if after != before {
            Some(after)
        } else {
            None
        }
    }

    /// Light of the sky now.
    pub fn brightness(&self) -> (level: LightLevel)
        requires
            self.wf(),
        ensures
            level.numer == spec_brightness(self.spec_elapsed(), self.spec_period()),
            level.denom == 200 * self.spec_period(),
    {
        let e: i64 = self.elapsed as i64;
        let d: i64 = self.period as i64;
        let numer: i128 = match self.phase() {
            DayPhase::Dawn => lerp(NIGHT_LIGHT_LEVEL, DAY_LIGHT_LEVEL, 20 * e, 2 * d),
            DayPhase::Day => lerp(DAY_LIGHT_LEVEL, DAY_LIGHT_LEVEL, 0, 2 * d),
            DayPhase::Dusk => lerp(DAY_LIGHT_LEVEL, NIGHT_LIGHT_LEVEL, 20 * e - 7 * d, 2 * d),
            DayPhase::Night => lerp(NIGHT_LIGHT_LEVEL, NIGHT_LIGHT_LEVEL, 0, 2 * d),
        };
        assert(numer == spec_brightness(e as int, d as int));
        assert(0 <= numer <= 300 * d);
        LightLevel { numer: numer as u128, denom: 200 * (self.period as u128) }
    }

    /// How strongly torches shine now.
    pub fn torch_multiplier(&self) -> (level: LightLevel)
        requires
            self.wf(),
        ensures
            level.numer == spec_torch_multiplier(self.spec_elapsed(), self.spec_period()),
            level.denom == 2 * self.spec_period(),
    {
        let e: i64 = self.elapsed as i64;
        let d: i64 = self.period as i64;
        let numer: i128 = match self.phase() {
            DayPhase::Dawn => lerp(1, 0, 20 * e, 2 * d),
            DayPhase::Day => 0,
            DayPhase::Dusk => lerp(0, 1, 20 * e - 7 * d, 2 * d),
            DayPhase::Night => 2 * d as i128,
        };
        assert(numer == spec_torch_multiplier(e as int, d as int));
        assert(0 <= numer <= 2 * d);
        LightLevel { numer: numer as u128, denom: 2 * (self.period as u128) }
    }
}

/// The light of the sky never leaves the band between the night level and
/// the day level, and the torch multiplier never leaves the band between
/// nothing and one.
pub proof fn lemma_levels_in_range(elapsed: int, period: int)
    requires
        0 <= elapsed < period,
    ensures
        NIGHT_LIGHT_LEVEL * (2 * period) <= spec_brightness(elapsed, period) <= DAY_LIGHT_LEVEL * (2 * period),
        0 <= spec_torch_multiplier(elapsed, period) <= 2 * period,
{
}

/// The light of the sky has no jump: where one phase ends, the formula of
/// that phase and the formula of the next give the same level, also where
/// the night wraps round to dawn.
pub proof fn lemma_brightness_meets_at_thresholds(period: int)
    requires
        0 < period,
    ensures
        spec_lerp(NIGHT_LIGHT_LEVEL as int, DAY_LIGHT_LEVEL as int, 2 * period, 2 * period) == DAY_LIGHT_LEVEL * (2
            * period),
        spec_lerp(DAY_LIGHT_LEVEL as int, NIGHT_LIGHT_LEVEL as int, 0, 2 * period) == DAY_LIGHT_LEVEL * (2 * period),
        spec_lerp(DAY_LIGHT_LEVEL as int, NIGHT_LIGHT_LEVEL as int, 2 * period, 2 * period) == NIGHT_LIGHT_LEVEL
            * (2 * period),
        spec_brightness(0, period) == NIGHT_LIGHT_LEVEL * (2 * period),
{
}

/// The light of the sky is continuous: between any two moments of one day
/// it changes by at most nine times the share of the day that lies between
/// them. In the units of `spec_brightness` that is 1800 per tick.
pub proof fn lemma_brightness_continuous(period: int, first: int, second: int)
    requires
        0 <= first <= second < period,
    ensures
        -1800 * (second - first) <= spec_brightness(second, period) - spec_brightness(first, period) <= 1800 * (
        second - first),
{
}

/// The events that a run of ticks sends, in order, when the clock stands at
/// `elapsed` ticks into a day of `period` ticks and is advanced by each of
/// `deltas` in turn.
pub open spec fn spec_run_events(elapsed: int, period: int, deltas: Seq<int>) -> Seq<DayPhase>
    decreases deltas.len(),
{
    if deltas.len() == 0 {
        Seq::empty()
    } else {
        let next = (elapsed + deltas[0]) % period;
        let sent = match spec_event(elapsed, next, period) {
            Some(phase) => seq![phase],
            None => Seq::empty(),
        };
        sent + spec_run_events(next, period, deltas.drop_first())
    }
}

/// The sum of `deltas`.
pub open spec fn spec_total(deltas: Seq<int>) -> int
    decreases deltas.len(),
{
    if deltas.len() == 0 {
        0
    } else {
        deltas[0] + spec_total(deltas.drop_first())
    }
}

/// Every tick of `deltas` moves the clock forward by at most a tenth of the
/// day, so that no tick jumps over a phase.
pub open spec fn spec_small_steps(period: int, deltas: Seq<int>) -> bool {
    forall|i: int| 0 <= i < deltas.len() ==> 0 <= #[trigger] deltas[i] && 10 * deltas[i] <= period
}

/// The phases in the order in which a day that begins at dawn enters them.
pub open spec fn spec_cycle_order() -> Seq<DayPhase> {
    seq![DayPhase::Day, DayPhase::Dusk, DayPhase::Night, DayPhase::Dawn]
}

/// How many phases have begun when `since` ticks have gone by since the
/// start of the day, the start of the next day included.
pub open spec fn spec_phases_begun(since: int, period: int) -> int {
    if 10 * since <= period {
        0
    } else if 20 * since <= 7 * period {
        1
    } else if 20 * since <= 9 * period {
        2
    } else if since < period {
        3
    } else {
        4
    }
}

proof fn lemma_total_of_small_steps(period: int, deltas: Seq<int>)
    requires
        0 < period,
        spec_small_steps(period, deltas),
    ensures
        0 <= spec_total(deltas),
        spec_total(deltas) == 0 ==> spec_run_events(0, period, deltas) == Seq::<DayPhase>::empty(),
    decreases deltas.len(),
{
    if deltas.len() > 0 {
        let rest = deltas.drop_first();
        assert forall|i: int| 0 <= i < rest.len() implies 0 <= #[trigger] rest[i] && 10 * rest[i] <= period by {
            assert(rest[i] == deltas[i + 1]);
        }
        lemma_total_of_small_steps(period, rest);
        if spec_total(deltas) == 0 {
            assert(deltas[0] == 0);
            lemma_small_mod(0, period as nat);
            assert((0 + deltas[0]) % period == 0);
            assert(spec_run_events(0, period, deltas) =~= Seq::<DayPhase>::empty());
        }
    }
}

proof fn lemma_rest_of_day(period: int, since: int, deltas: Seq<int>)
    requires
        0 < period,
        0 <= since <= period,
        spec_small_steps(period, deltas),
        since + spec_total(deltas) == period,
    ensures
        spec_run_events(since % period, period, deltas) == spec_cycle_order().subrange(
            spec_phases_begun(since, period),
            4,
        ),
    decreases deltas.len(),
{
    let order = spec_cycle_order();
    let begun = spec_phases_begun(since, period);
    let elapsed = since % period;
    if since < period {
        lemma_small_mod(since as nat, period as nat);
    } else {
        lemma_mod_self_0(period);
    }
    if deltas.len() == 0 {
        assert(order.subrange(4, 4) =~= Seq::<DayPhase>::empty());
    } else {
        let step = deltas[0];
        let rest = deltas.drop_first();
        assert(0 <= step && 10 * step <= period);
        assert forall|i: int| 0 <= i < rest.len() implies 0 <= #[trigger] rest[i] && 10 * rest[i] <= period by {
            assert(rest[i] == deltas[i + 1]);
        }
        lemma_total_of_small_steps(period, rest);
        let then = since + step;
        let next = (elapsed + step) % period;
        if then < period {
            lemma_small_mod(then as nat, period as nat);
        } else {
            lemma_mod_self_0(period);
            if since == period {
                lemma_small_mod(0, period as nat);
            }
        }
        assert(next == then % period);
        lemma_rest_of_day(period, then, rest);
        let begun_then = spec_phases_begun(then, period);
        let tail = order.subrange(begun_then, 4);
        if begun_then == begun {
            assert(spec_event(elapsed, next, period) is None);
            assert(Seq::<DayPhase>::empty() + tail =~= tail);
        } else {
            assert(begun_then == begun + 1);
            assert(spec_event(elapsed, next, period) == Some(order[begun]));
            assert(seq![order[begun]] + tail =~= order.subrange(begun, 4));
        }
    }
}

/// Over one whole day every phase begins exactly once, in the order of the
/// day: a run of ticks that starts at the beginning of a day, moves forward
/// by at most a tenth of the day at a time and adds up to the length of the
/// day sends four events, for day, dusk, night and the dawn of the next day.
pub proof fn lemma_full_day_sends_each_event_once(period: int, deltas: Seq<int>)
    requires
        0 < period,
        spec_small_steps(period, deltas),
        spec_total(deltas) == period,
    ensures
        spec_run_events(0, period, deltas) == spec_cycle_order(),
{
    lemma_rest_of_day(period, 0, deltas);
    lemma_small_mod(0, period as nat);
    assert(spec_cycle_order().subrange(0, 4) =~= spec_cycle_order());
}

} // verus!
