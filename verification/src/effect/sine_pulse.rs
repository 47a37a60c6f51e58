//! A pulse whose blend factor follows a sampled sine wave.

use vstd::prelude::*;

use crate::effect::model::{scratch_wf, EffectModel, ScratchModel, SinePulseModel};
use crate::effect::{
    apply_wrapped, blend_into, buffer_model, event_model, update_wrapped, wrap, DisplayMode,
    Effect, EffectBuffer, EffectEvent, EffectId,
};
use crate::render::rgb::Rgb;
use crate::render::LED_COUNT;
use crate::time::{elapsed_between, now, ticks_since};
use crate::render::rgb::{clamp_unit, div_full, FULL};

verus! {

/// Number of samples that a wave table holds of one period.
pub const SINE_STEPS: usize = 256;

/// Whether `samples` can stand for one period of a sine wave: `SINE_STEPS`
/// values between `-FULL` and `FULL` that cross zero at the start and at
/// half the period.
pub open spec fn valid_samples(samples: Seq<i32>) -> bool {
    &&& samples.len() == SINE_STEPS
    &&& forall|i: int| 0 <= i < samples.len() ==> -FULL <= #[trigger] samples[i] <= FULL
    &&& samples[0] == 0
    &&& samples[SINE_STEPS as int / 2] == 0
}

/// One period of a sine wave in fixed point, `FULL` being an amplitude of one.
pub struct SineTable {
    samples: Vec<i32>,
}

impl View for SineTable {
    type V = Seq<i32>;

    closed spec fn view(&self) -> Seq<i32> {
        self.samples@
    }
}

impl SineTable {
    #[verifier::type_invariant]
    spec fn inv(self) -> bool {
        valid_samples(self.samples@)
    }

    /// Takes `samples` as a wave table where they can stand for one.
    pub fn new(samples: Vec<i32>) -> (table: Option<SineTable>)
        ensures
            table is Some <==> valid_samples(samples@),
            table matches Some(t) ==> t@ == samples@,
    {
        if samples.len() != SINE_STEPS {
            return None;
        }
        let mut i: usize = 0;
        while i < SINE_STEPS
            invariant
                i <= SINE_STEPS,
                samples.len() == SINE_STEPS,
                forall|j: int| 0 <= j < i ==> -FULL <= #[trigger] samples[j] <= FULL,
            decreases SINE_STEPS - i,
        {
            if samples[i] < -FULL || samples[i] > FULL {
                return None;
            }
            i += 1;
        }
        if samples[0] != 0 || samples[SINE_STEPS / 2] != 0 {
            return None;
        }
        Some(SineTable { samples })
    }

    /// The sample at `index`.
    pub fn sample(&self, index: usize) -> (s: i32)
        requires
            index < SINE_STEPS,
        ensures
            s == self@[index as int],
            valid_samples(self@),
    {
        proof {
            use_type_invariant(self);
        }
        self.samples[index]
    }
}

/// The place in the wave table that belongs to `elapsed` ticks of a wave of
/// `period` ticks. A wave of no period stays at its start.
pub open spec fn phase_index(elapsed: u64, period: u64) -> int {
    if period == 0 {
        0
    } else {
        ((elapsed % period) * SINE_STEPS) / (period as int)
    }
}

/// `offset + amplitude * sample`, in fixed point and rounded down.
pub open spec fn sine_level(amplitude: i32, offset: i32, sample: i32) -> int {
    offset + (amplitude * sample) / (FULL as int)
}

/// The blend factor of a pulse `elapsed` ticks into a wave of `period`
/// ticks, limited to the range from zero to `FULL`.
pub open spec fn pulse_factor(
    amplitude: i32,
    offset: i32,
    elapsed: u64,
    period: u64,
    wave: Seq<i32>,
) -> int {
    clamp_unit(sine_level(amplitude, offset, wave[phase_index(elapsed, period)]))
}

/// The start of the period of a wave in which the time `now` lies: the
/// start of the wave moved on by the whole periods that have passed since.
/// A wave of no period, or one that has not begun, keeps its start.
pub open spec fn period_start(start: u64, period: u64, now: u64) -> u64 {
    if period == 0 {
        start
    } else {
        (start + period * (ticks_since(start, now) / period)) as u64
    }
}

/// The start of the period of a wave in which the time `now` lies.
pub fn restart(start: u64, period: u64, now: u64) -> (at: u64)
    ensures
        at == period_start(start, period, now),
        now >= start ==> start <= at <= now,
{
    if period == 0 {
        start
    } else {
        let elapsed: u64 = elapsed_between(start, now);
        let periods: u64 = elapsed / period;
        assert(0 <= period * periods <= elapsed) by (nonlinear_arith)
            requires
                periods == elapsed / period,
                period > 0,
                elapsed >= 0,
        ;
        start + period * periods
    }
}

/// The place in the wave table for `elapsed` ticks of `period`.
pub fn phase(elapsed: u64, period: u64) -> (index: usize)
    ensures
        index == phase_index(elapsed, period),
        index < SINE_STEPS,
{
    if period == 0 {
        0
    } else {
        let n: u128 = (elapsed % period) as u128 * 256;
        assert(n / (period as u128) < 256) by (nonlinear_arith)
            requires
                n == (elapsed % period) * 256,
                0 <= elapsed % period < period,
        ;
        (n / (period as u128)) as usize
    }
}

/// The blend factor of a pulse `elapsed` ticks into a wave of `period` ticks.
pub fn pulse_level(amplitude: i32, offset: i32, elapsed: u64, period: u64, wave: &SineTable) -> (a:
    i32)
    ensures
        a == pulse_factor(amplitude, offset, elapsed, period, wave@),
        0 <= a <= FULL,
{
    let sample: i32 = wave.sample(phase(elapsed, period));
    assert(-0x8000_0000 * 65280 <= amplitude * sample <= 0x8000_0000 * 65280) by (nonlinear_arith)
        requires
            -65280 <= sample <= 65280,
            -0x8000_0000 <= amplitude <= 0x7fff_ffff,
    ;
    let level: i64 = offset as i64 + div_full(amplitude as i64 * sample as i64);
    if level < 0 {
        0
    } else if level > FULL as i64 {
        FULL
    } else {
        level as i32
    }
}

/// The level of a pulse stays within its amplitude of its offset.
pub proof fn lemma_pulse_range(
    amplitude: i32,
    offset: i32,
    elapsed: u64,
    period: u64,
    wave: Seq<i32>,
)
    requires
        valid_samples(wave),
        amplitude >= 0,
    ensures
        offset - amplitude <= sine_level(amplitude, offset, wave[phase_index(elapsed, period)])
            <= offset + amplitude,
        0 <= offset - amplitude && offset + amplitude <= FULL ==> offset - amplitude
            <= pulse_factor(amplitude, offset, elapsed, period, wave) <= offset + amplitude,
{
    let index = phase_index(elapsed, period);
    if period > 0 {
        assert(0 <= ((elapsed % period) * 256) / (period as int) < 256) by (nonlinear_arith)
            requires
                0 <= elapsed % period < period,
        ;
    }
    let sample = wave[index];
    assert(-amplitude * 65280 <= amplitude * sample <= amplitude * 65280) by (nonlinear_arith)
        requires
            -65280 <= sample <= 65280,
            amplitude >= 0,
    ;
}

/// A wave repeats itself: whole periods more or less change neither the
/// place in the wave table nor the blend factor.
pub proof fn lemma_pulse_periodic(
    amplitude: i32,
    offset: i32,
    elapsed: u64,
    later: u64,
    periods: nat,
    period: u64,
    wave: Seq<i32>,
)
    requires
        later == elapsed + periods * period,
    ensures
        phase_index(later, period) == phase_index(elapsed, period),
        pulse_factor(amplitude, offset, later, period, wave) == pulse_factor(
            amplitude,
            offset,
            elapsed,
            period,
            wave,
        ),
{
    if period > 0 {
        lemma_same_phase(elapsed as int, later as int, periods as int, period as int);
    }
}

/// Two times that lie whole periods apart have the same remainder.
proof fn lemma_same_phase(elapsed: int, later: int, periods: int, period: int)
    requires
        period > 0,
        later == elapsed + periods * period,
    ensures
        later % period == elapsed % period,
{
    let q = elapsed / period;
    let r = elapsed % period;
    vstd::arithmetic::div_mod::lemma_fundamental_div_mod(elapsed, period);
    assert(later == (q + periods) * period + r) by (nonlinear_arith)
        requires
            elapsed == period * q + r,
            later == elapsed + periods * period,
    ;
    vstd::arithmetic::div_mod::lemma_fundamental_div_mod_converse(later, period, q + periods, r);
}

/// An update leaves the wave where it is: a pulse that was brought up to
/// date at the time `updated` is, at any later time `now`, at the same
/// place of the wave as one that was not.
pub proof fn lemma_update_keeps_phase(start: u64, period: u64, updated: u64, now: u64)
    requires
        updated <= now,
    ensures
        phase_index(ticks_since(period_start(start, period, updated), now), period)
            == phase_index(ticks_since(start, now), period),
{
    if period > 0 && updated >= start {
        let periods = (updated - start) / (period as int);
        let moved = periods * period;
        assert(0 <= moved <= updated - start && moved == period * periods) by (nonlinear_arith)
            requires
                periods == (updated - start) / (period as int),
                moved == periods * period,
                period > 0,
                updated - start >= 0,
        ;
        assert(ticks_since(start, updated) == updated - start);
        assert(period_start(start, period, updated) == start + moved);
        assert(ticks_since(period_start(start, period, updated), now) == now - start - moved);
        assert(ticks_since(start, now) == now - start);
        lemma_same_phase(now - start - moved, now - start, periods, period as int);
    } else if period > 0 {
        assert(period * (0int / (period as int)) == 0) by (nonlinear_arith)
            requires
                period > 0,
        ;
        assert(period_start(start, period, updated) == start);
    }
}

/// The level of a pulse is its offset at the start of every period and in
/// the middle of it, where the wave crosses zero.
pub proof fn lemma_pulse_crossings(
    amplitude: i32,
    offset: i32,
    halves: nat,
    elapsed: u64,
    period: u64,
    wave: Seq<i32>,
)
    requires
        valid_samples(wave),
        period > 0,
        2 * elapsed == halves * period,
    ensures
        sine_level(amplitude, offset, wave[phase_index(elapsed, period)]) == offset,
        pulse_factor(amplitude, offset, elapsed, period, wave) == clamp_unit(offset as int),
{
    let turn = (halves % 2) as int;
    let pairs = (halves / 2) as int;
    if turn == 0 {
        assert(elapsed == pairs * period + 0) by (nonlinear_arith)
            requires
                2 * elapsed == halves * period,
                halves == 2 * pairs,
        ;
        vstd::arithmetic::div_mod::lemma_fundamental_div_mod_converse(
            elapsed as int,
            period as int,
            pairs,
            0,
        );
        assert((0int * 256) / (period as int) == 0) by (nonlinear_arith)
            requires
                period > 0,
        ;
    } else {
        // An odd number of half periods is a whole number of ticks only
        // where the period is even.
        let whole = pairs * period;
        assert(halves * period == 2 * whole + period) by (nonlinear_arith)
            requires
                halves == 2 * pairs + 1,
                whole == pairs * period,
        ;
        let half = elapsed - whole;
        assert(period == 2 * half);
        vstd::arithmetic::div_mod::lemma_fundamental_div_mod_converse(
            elapsed as int,
            period as int,
            pairs,
            half,
        );
        assert((half * 256) / (period as int) == 128) by (nonlinear_arith)
            requires
                period == 2 * half,
                half > 0,
        ;
    }
    let sample = wave[phase_index(elapsed, period)];
    assert(sample == 0);
    assert((amplitude * 0) / 65280 == 0) by (nonlinear_arith);
}

/// A pulse whose blend factor follows a sine wave.
#[derive(Debug, PartialEq, Eq)]
pub struct SinePulseEffect {
    pub id: Option<EffectId>,
    pub start: u64,
    pub period: u64,
    pub amplitude: i32,
    pub offset: i32,
    pub wrapped: Option<EffectBuffer>,
}

impl View for SinePulseEffect {
    type V = SinePulseModel;

    open spec fn view(&self) -> SinePulseModel {
        SinePulseModel {
            id: self.id,
            start: self.start,
            period: self.period,
            amplitude: self.amplitude,
            offset: self.offset,
            wrapped: buffer_model(self.wrapped),
        }
    }
}

impl SinePulseEffect {
    /// A pulse that starts at the time `start`.
    pub fn new_at(
        start: u64,
        id: Option<EffectId>,
        period: u64,
        amplitude: i32,
        offset: i32,
        wrapped: Option<Box<Effect>>,
    ) -> (out: Self)
        ensures
            out@ == (SinePulseModel {
                id,
                start,
                period,
                amplitude,
                offset,
                wrapped: match wrapped {
                    Some(inner) => Some(
                        ScratchModel {
                            effect: Box::new(inner.model()),
                            buffer: Seq::new(LED_COUNT as nat, |i: int| Rgb::black()),
                        },
                    ),
                    None => None,
                },
            }),
    {
        SinePulseEffect { id, start, period, amplitude, offset, wrapped: wrap(wrapped) }
    }

    /// A pulse that starts now, by the clock.
    pub fn new(
        id: Option<EffectId>,
        period: u64,
        amplitude: i32,
        offset: i32,
        wrapped: Option<Box<Effect>>,
    ) -> (out: Self)
        ensures
            out@ == (SinePulseModel {
                id,
                start: out.start,
                period,
                amplitude,
                offset,
                wrapped: match wrapped {
                    Some(inner) => Some(
                        ScratchModel {
                            effect: Box::new(inner.model()),
                            buffer: Seq::new(LED_COUNT as nat, |i: int| Rgb::black()),
                        },
                    ),
                    None => None,
                },
            }),
    {
        Self::new_at(now(), id, period, amplitude, offset, wrapped)
    }

    pub fn id(&self) -> (id: Option<EffectId>)
        ensures
            id == self.id,
    {
        self.id
    }

    pub fn display_mode(&self) -> (mode: DisplayMode)
        ensures
            mode == DisplayMode::Blend,
    {
        DisplayMode::Blend
    }

    /// Renders the pulse onto `buffer` as it stands at the time `now`: the
    /// wrapped effect into its scratch buffer, then every pixel blended
    /// towards it by the factor that the wave gives.
    pub fn apply_at(&mut self, now: u64, buffer: &mut [Rgb], wave: &SineTable)
        requires
            scratch_wf(old(self)@.wrapped),
            old(self)@.wrapped is Some ==> old(buffer).len() <= LED_COUNT,
        ensures
            (EffectModel::SinePulse(final(self)@), final(buffer)@) == EffectModel::SinePulse(
                old(self)@,
            ).applied(now, old(buffer)@, wave@),
        decreases *old(self),
    {
        apply_wrapped(&mut self.wrapped, now, wave);
        let a: i32 = pulse_level(
            self.amplitude,
            self.offset,
            elapsed_between(self.start, now),
            self.period,
            wave,
        );
        blend_into(buffer, &self.wrapped, a);
    }
    /// Advances the pulse to the time `now`: the wrapped effect first, then
    /// the wave, whose start moves on by the periods that have passed.
    pub fn update_at(&mut self, now: u64) -> (event: Option<EffectEvent>)
        ensures
            EffectModel::SinePulse(final(self)@) == EffectModel::SinePulse(old(self)@).updated(
                now,
            ).0,
            event_model(event) == EffectModel::SinePulse(old(self)@).updated(now).1,
        decreases *old(self),
    {
        if update_wrapped(&mut self.wrapped, now) {
            return Some(EffectEvent::Remove);
        }
        self.start = restart(self.start, self.period, now);
        None
    }
}

impl SinePulseEffect {
    /// Advances the effect to the present time, which it reads from the clock.
    pub fn update(&mut self, _elapsed: u64) -> (event: Option<EffectEvent>)
        ensures
            exists|now: u64|
                EffectModel::SinePulse(final(self)@) == (#[trigger] EffectModel::SinePulse(
                    old(self)@,
                ).updated(now)).0 && event_model(event) == EffectModel::SinePulse(
                    old(self)@,
                ).updated(now).1,
    {
        self.update_at(now())
    }

    /// Renders the effect onto `buffer` as it stands at the present time,
    /// which it reads from the clock.
    pub fn apply(&mut self, buffer: &mut [Rgb], wave: &SineTable)
        requires
            scratch_wf(old(self)@.wrapped),
            old(self)@.wrapped is Some ==> old(buffer).len() <= LED_COUNT,
        ensures
            exists|now: u64|
                (EffectModel::SinePulse(final(self)@), final(buffer)@) == #[trigger] EffectModel::SinePulse(
                    old(self)@,
                ).applied(now, old(buffer)@, wave@),
    {
        self.apply_at(now(), buffer, wave)
    }
}

} // verus!
