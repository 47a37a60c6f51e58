//! A fade between what lies beneath and a wrapped effect.

use vstd::prelude::*;

use crate::effect::model::{scratch_wf, EffectModel, FadeModel, ScratchModel};
use crate::effect::sine_pulse::SineTable;
use crate::effect::{
    apply_wrapped, blend_into, buffer_model, event_model, update_wrapped, wrap, DisplayMode,
    Effect, EffectBuffer, EffectEvent, EffectId,
};
use crate::render::rgb::Rgb;
use crate::render::LED_COUNT;
use crate::time::{elapsed_between, now};
use crate::render::rgb::{clamp_unit, FULL};

verus! {

/// Whether the wrapped effect fades in or out.
#[derive(Clone, Copy, Debug, PartialEq, Eq, Structural)]
pub enum FadeDirection {
    In,
    Out,
}

/// The easing curve of a fade.
#[derive(Clone, Copy, Debug, PartialEq, Eq, Structural)]
pub enum FadeCurve {
    Linear,
    EaseIn,
    EaseOut,
    Smoothstep,
}

/// The cube of `t / FULL`, in fixed point and rounded down.
pub open spec fn cubed(t: int) -> int {
    (t * t * t) / (FULL as int * FULL as int)
}

/// The part of a fade of `duration` ticks that lies behind it after
/// `elapsed` ticks, from zero to `FULL`. A fade of no duration is complete.
pub open spec fn time_fraction(elapsed: u64, duration: u64) -> int {
    if elapsed >= duration {
        FULL as int
    } else {
        (elapsed * FULL) / (duration as int)
    }
}

impl FadeDirection {
    /// `x` for a fade in and `FULL - x` for a fade out, with `x` limited to
    /// the range from zero to `FULL`.
    pub open spec fn oriented(self, x: int) -> int {
        match self {
            FadeDirection::In => clamp_unit(x),
            FadeDirection::Out => FULL - clamp_unit(x),
        }
    }

    pub fn apply(&self, x: i32) -> (y: i32)
        ensures
            y == self.oriented(x as int),
            0 <= y <= FULL,
    {
        let c: i32 = if x < 0 {
            0
        } else if x > FULL {
            FULL
        } else {
            x
        };
        match self {
            FadeDirection::In => c,
            FadeDirection::Out => FULL - c,
        }
    }
}

impl FadeCurve {
    /// The eased value of the time fraction `x`, which is first limited to
    /// the range from zero to `FULL`.
    pub open spec fn eased(self, x: int) -> int {
        let t = clamp_unit(x);
        match self {
            FadeCurve::Linear => t,
            FadeCurve::EaseIn => cubed(t),
            FadeCurve::EaseOut => FULL - cubed(FULL - t),
            FadeCurve::Smoothstep => (t * t * (3 * FULL - 2 * t)) / (FULL as int * FULL as int),
        }
    }

    pub fn apply(&self, x: i32) -> (y: i32)
        ensures
            y == self.eased(x as int),
            0 <= y <= FULL,
    {
        let t: u64 = if x < 0 {
            0
        } else if x > FULL {
            FULL as u64
        } else {
            x as u64
        };
        match self {
            FadeCurve::Linear => t as i32,
            FadeCurve::EaseIn => cube(t) as i32,
            FadeCurve::EaseOut => (FULL as u64 - cube(FULL as u64 - t)) as i32,
            FadeCurve::Smoothstep => {
                proof {
                    lemma_smoothstep_bounds(t as int);
                }
                let n: u64 = t * t * (3 * (FULL as u64) - 2 * t);
                (n / (65280 * 65280)) as i32
            },
        }
    }
}

proof fn lemma_cube_bounds(t: int)
    by (nonlinear_arith)
    requires
        0 <= t <= 65280,
    ensures
        0 <= t * t <= 65280 * 65280,
        0 <= t * t * t <= 65280 * 65280 * 65280,
{
}

proof fn lemma_smoothstep_bounds(t: int)
    by (nonlinear_arith)
    requires
        0 <= t <= 65280,
    ensures
        0 <= t * t <= 65280 * 65280,
        0 <= t * t * (3 * 65280 - 2 * t) <= 65280 * 65280 * 65280,
{
    assert((65280 - t) * (65280 - t) * (65280 + 2 * t) >= 0);
    assert((65280 - t) * (65280 - t) * (65280 + 2 * t) == 65280 * 65280 * 65280 - 3 * 65280 * t * t
        + 2 * t * t * t);
}

fn cube(t: u64) -> (c: u64)
    requires
        t <= FULL,
    ensures
        c == cubed(t as int),
        c <= FULL,
{
    proof {
        lemma_cube_bounds(t as int);
    }
    (t * t * t) / (65280 * 65280)
}

/// The time fraction of a fade after `elapsed` of `duration` ticks.
pub fn fraction(elapsed: u64, duration: u64) -> (t: i32)
    ensures
        t == time_fraction(elapsed, duration),
        0 <= t <= FULL,
{
    if elapsed >= duration {
        FULL
    } else {
        let n: u128 = elapsed as u128 * 65280;
        assert(n / (duration as u128) <= 65280) by (nonlinear_arith)
            requires
                n == elapsed * 65280,
                elapsed < duration,
        ;
        (n / (duration as u128)) as i32
    }
}

/// The blend factor of a fade after `elapsed` of `duration` ticks.
pub open spec fn fade_factor(
    curve: FadeCurve,
    direction: FadeDirection,
    elapsed: u64,
    duration: u64,
) -> int {
    direction.oriented(curve.eased(time_fraction(elapsed, duration)))
}

/// The blend factor of a fade after `elapsed` of `duration` ticks.
pub fn fade_level(curve: FadeCurve, direction: FadeDirection, elapsed: u64, duration: u64) -> (a:
    i32)
    ensures
        a == fade_factor(curve, direction, elapsed, duration),
        0 <= a <= FULL,
{
    direction.apply(curve.apply(fraction(elapsed, duration)))
}

/// A linear fade in goes from nothing to all: its factor is zero at the
/// start, one half after half its duration, and one from its end on.
pub proof fn lemma_linear_factor(duration: u64)
    ensures
        duration > 0 ==> fade_factor(FadeCurve::Linear, FadeDirection::In, 0, duration) == 0,
        duration > 0 && duration % 2 == 0 ==> fade_factor(
            FadeCurve::Linear,
            FadeDirection::In,
            (duration / 2) as u64,
            duration,
        ) == FULL / 2,
        forall|elapsed: u64|
            elapsed >= duration ==> #[trigger] fade_factor(
                FadeCurve::Linear,
                FadeDirection::In,
                elapsed,
                duration,
            ) == FULL,
{
    if duration > 0 && duration % 2 == 0 {
        let half = (duration / 2) as int;
        assert((half * 65280) / (duration as int) == 32640) by (nonlinear_arith)
            requires
                duration == 2 * half,
                half > 0,
        ;
    }
    if duration > 0 {
        assert((0int * 65280) / (duration as int) == 0) by (nonlinear_arith)
            requires
                duration > 0,
        ;
    }
}

/// Every blend factor of a fade lies between zero and one, and a fade out
/// has what is left of one after the factor of the fade in.
pub proof fn lemma_fade_factor_range(curve: FadeCurve, elapsed: u64, duration: u64)
    ensures
        0 <= fade_factor(curve, FadeDirection::In, elapsed, duration) <= FULL,
        fade_factor(curve, FadeDirection::Out, elapsed, duration) == FULL - fade_factor(
            curve,
            FadeDirection::In,
            elapsed,
            duration,
        ),
{
    let t = clamp_unit(time_fraction(elapsed, duration));
    lemma_cube_bounds(t);
    lemma_cube_bounds(FULL - t);
    lemma_smoothstep_bounds(t);
}

/// A fade of fixed duration.
#[derive(Debug, PartialEq, Eq)]
pub struct FadeTransitionEffect {
    pub id: Option<EffectId>,
    pub start: u64,
    pub duration: u64,
    pub fade_curve: FadeCurve,
    pub fade_direction: FadeDirection,
    pub wrapped: Option<EffectBuffer>,
}

impl View for FadeTransitionEffect {
    type V = FadeModel;

    open spec fn view(&self) -> FadeModel {
        FadeModel {
            id: self.id,
            start: self.start,
            duration: self.duration,
            curve: self.fade_curve,
            direction: self.fade_direction,
            wrapped: buffer_model(self.wrapped),
        }
    }
}

impl FadeTransitionEffect {
    /// A fade that starts at the time `start` and runs for `period` ticks.
    pub fn new_at(
        start: u64,
        id: Option<EffectId>,
        period: u64,
        fade_curve: FadeCurve,
        fade_direction: FadeDirection,
        wrapped: Option<Box<Effect>>,
    ) -> (out: Self)
        ensures
            out@ == (FadeModel {
                id,
                start,
                duration: period,
                curve: fade_curve,
                direction: fade_direction,
                wrapped: match wrapped {
                    Some(inner) => Some(
                        ScratchModel {
                            effect: Box::new(inner.model()),
                            buffer: Seq::new(LED_COUNT as nat, |i: int| Rgb::black()),
                        },
                    ),
                    None => None,
                },
            }),
    {
        FadeTransitionEffect {
            id,
            start,
            duration: period,
            fade_curve,
            fade_direction,
            wrapped: wrap(wrapped),
        }
    }

    /// A fade that starts now, by the clock, and runs for `period` ticks.
    pub fn new(
        id: Option<EffectId>,
        period: u64,
        fade_curve: FadeCurve,
        fade_direction: FadeDirection,
        wrapped: Option<Box<Effect>>,
    ) -> (out: Self)
        ensures
            out@ == (FadeModel {
                id,
                start: out.start,
                duration: period,
                curve: fade_curve,
                direction: fade_direction,
                wrapped: match wrapped {
                    Some(inner) => Some(
                        ScratchModel {
                            effect: Box::new(inner.model()),
                            buffer: Seq::new(LED_COUNT as nat, |i: int| Rgb::black()),
                        },
                    ),
                    None => None,
                },
            }),
    {
        Self::new_at(now(), id, period, fade_curve, fade_direction, wrapped)
    }

    pub fn id(&self) -> (id: Option<EffectId>)
        ensures
            id == self.id,
    {
        self.id
    }

    pub fn display_mode(&self) -> (mode: DisplayMode)
        ensures
            mode == DisplayMode::Blend,
    {
        DisplayMode::Blend
    }

    /// Renders the fade onto `buffer` as it stands at the time `now`: the
    /// wrapped effect into its scratch buffer, then every pixel blended
    /// towards it by the factor of the fade.
    pub fn apply_at(&mut self, now: u64, buffer: &mut [Rgb], wave: &SineTable)
        requires
            scratch_wf(old(self)@.wrapped),
            old(self)@.wrapped is Some ==> old(buffer).len() <= LED_COUNT,
        ensures
            (EffectModel::FadeTransition(final(self)@), final(buffer)@)
                == EffectModel::FadeTransition(old(self)@).applied(now, old(buffer)@, wave@),
        decreases *old(self),
    {
        apply_wrapped(&mut self.wrapped, now, wave);
        let a: i32 = fade_level(
            self.fade_curve,
            self.fade_direction,
            elapsed_between(self.start, now),
            self.duration,
        );
        blend_into(buffer, &self.wrapped, a);
    }
    /// Advances the fade to the time `now`: the wrapped effect first, then
    /// the fade itself, which ends once its duration has passed. A fade in
    /// then hands over to what it wrapped; a fade out, or one that has
    /// nothing left to show, is done.
    pub fn update_at(&mut self, now: u64) -> (event: Option<EffectEvent>)
        ensures
            EffectModel::FadeTransition(final(self)@) == EffectModel::FadeTransition(
                old(self)@,
            ).updated(now).0,
            event_model(event) == EffectModel::FadeTransition(old(self)@).updated(now).1,
        decreases *old(self),
    {
        let _ = update_wrapped(&mut self.wrapped, now);
        if elapsed_between(self.start, now) >= self.duration {
            let wrapped = self.wrapped.take();
            return Some(
                match wrapped {
                    Some(scratch) => match self.fade_direction {
                        FadeDirection::In => EffectEvent::Replace(scratch.effect),
                        FadeDirection::Out => EffectEvent::Remove,
                    },
                    None => EffectEvent::Remove,
                },
            );
        }
        None
    }
}

impl FadeTransitionEffect {
    /// Advances the effect to the present time, which it reads from the clock.
    pub fn update(&mut self, _elapsed: u64) -> (event: Option<EffectEvent>)
        ensures
            exists|now: u64|
                EffectModel::FadeTransition(final(self)@) == (#[trigger] EffectModel::FadeTransition(
                    old(self)@,
                ).updated(now)).0 && event_model(event) == EffectModel::FadeTransition(
                    old(self)@,
                ).updated(now).1,
    {
        self.update_at(now())
    }

    /// Renders the effect onto `buffer` as it stands at the present time,
    /// which it reads from the clock.
    pub fn apply(&mut self, buffer: &mut [Rgb], wave: &SineTable)
        requires
            scratch_wf(old(self)@.wrapped),
            old(self)@.wrapped is Some ==> old(buffer).len() <= LED_COUNT,
        ensures
            exists|now: u64|
                (EffectModel::FadeTransition(final(self)@), final(buffer)@) == #[trigger] EffectModel::FadeTransition(
                    old(self)@,
                ).applied(now, old(buffer)@, wave@),
    {
        self.apply_at(now(), buffer, wave)
    }
}

} // verus!
