//! The mode controller: the state machine that reacts to events, pushes
//! and fades effects, and sequences startup, charging and shutdown.
//!
//! The controller never waits itself. A turn begins with `prepare`, which
//! runs the mode up to the point where it has to wait and says what it
//! waits for. Whoever drives the controller waits, then hands what came of
//! it to `resume`, which runs the rest of the turn.

use vstd::prelude::*;

use crate::effect::model::{
    lemma_bundle_wf, scratch_wf, EffectModel, FadeModel, ScratchModel, SinePulseModel,
};
use crate::effect::{
    stack_model, stack_wf, Effect, FadeCurve, FadeDirection, FadeTransitionEffect,
    SinePulseEffect,
};
use crate::event::Event;
use crate::power::PowerState;
use crate::render::rgb::{Rgb, FULL};
use crate::render::LED_COUNT;
use crate::state::{Mode, State, StateModel};
use crate::time::{millis, now, TICKS_PER_MILLI};

verus! {

/// Milliseconds that a visual takes to fade in.
pub const FADE_IN_MILLIS: u64 = 1000;

/// Milliseconds that the visuals of a mode take to fade out.
pub const FADE_OUT_MILLIS: u64 = 1500;

/// Milliseconds that the visuals take to fade out at shutdown.
pub const SHUTDOWN_FADE_MILLIS: u64 = 500;

/// Milliseconds that the inputs get to settle after boot, and that the
/// monitors get to let go of their lines before the power goes down.
pub const SETTLE_MILLIS: u64 = 1;

/// Milliseconds that the pairing mode idles for.
pub const PAIRING_MILLIS: u64 = 3000;

/// Milliseconds of one pulse of the charging visual.
pub const CHARGING_PULSE_MILLIS: u64 = 5000;

/// Milliseconds of one pulse of the main visual.
pub const MAIN_PULSE_MILLIS: u64 = 3000;

/// Amplitude of the pulse of the charging visual: 0.075.
pub const CHARGING_PULSE_AMPLITUDE: i32 = 4896;

/// Offset of the pulse of the charging visual: 0.85.
pub const CHARGING_PULSE_OFFSET: i32 = 55488;

/// Amplitude and offset of the pulse of the main visual: 0.5.
pub const MAIN_PULSE_LEVEL: i32 = 32640;

/// What the controller waits for.
#[derive(Clone, Copy, Debug, PartialEq, Eq, Structural)]
pub enum Request {
    /// Nothing: the next turn begins at once.
    Proceed,
    /// That a number of ticks passes.
    Delay(u64),
    /// The next event from the queue.
    NextEvent,
    /// A point in time.
    Until(u64),
    /// That the power goes down, which does not come back.
    PowerDown,
}

/// What came of a request.
#[derive(Clone, Copy, Debug, PartialEq, Eq, Structural)]
pub enum Response {
    /// The time that was asked for has passed.
    Elapsed,
    /// The event that was received.
    Event(Event),
}

/// Where the controller stands within its mode.
#[derive(Clone, Copy, Debug, PartialEq, Eq, Structural)]
pub enum Stage {
    /// At the beginning of a turn.
    Ready,
    /// In the middle of a turn, waiting for what it asked for.
    Waiting,
    /// In shutdown, waiting for the visuals to have faded out at `until`.
    FadeOut { until: u64 },
    /// In shutdown, with the visuals faded out, waiting for the button to
    /// be released.
    Debounce,
    /// In shutdown, with the exit signal given, waiting for the other tasks
    /// to let go of their lines.
    Grace,
    /// In shutdown, ready for the power to go down.
    Off,
}

/// The mode controller.
#[derive(Clone, Copy, Debug, PartialEq, Eq, Structural)]
pub struct Controller {
    /// Whether the button was held at boot and has not changed since.
    pub initial_hold: bool,
    pub stage: Stage,
}

/// A scratch buffer of the strip's length, all black, around `effect`.
pub open spec fn fresh_scratch(effect: EffectModel) -> ScratchModel {
    ScratchModel {
        effect: Box::new(effect),
        buffer: Seq::new(LED_COUNT as nat, |i: int| Rgb::black()),
    }
}

/// A linear fade without a name that starts at `start`, runs for `millis`
/// milliseconds and wraps `effect`, where there is one.
pub open spec fn fade(
    start: u64,
    millis: u64,
    direction: FadeDirection,
    effect: Option<EffectModel>,
) -> EffectModel {
    EffectModel::FadeTransition(
        FadeModel {
            id: None,
            start,
            duration: (millis * TICKS_PER_MILLI) as u64,
            curve: FadeCurve::Linear,
            direction,
            wrapped: match effect {
                Some(inner) => Some(fresh_scratch(inner)),
                None => None,
            },
        },
    )
}

/// The charging visual: solid white under a slow, shallow pulse to black.
pub open spec fn charging_visual(start: u64) -> EffectModel {
    EffectModel::Bundle(
        seq![
            EffectModel::Solid(Rgb::white()),
            EffectModel::SinePulse(
                SinePulseModel {
                    id: None,
                    start,
                    period: (CHARGING_PULSE_MILLIS * TICKS_PER_MILLI) as u64,
                    amplitude: CHARGING_PULSE_AMPLITUDE,
                    offset: CHARGING_PULSE_OFFSET,
                    wrapped: None,
                },
            ),
        ],
    )
}

/// The main visual: solid cyan under a pulse to red.
pub open spec fn main_visual(start: u64) -> EffectModel {
    EffectModel::Bundle(
        seq![
            EffectModel::Solid(Rgb { r: 0, g: FULL, b: FULL }),
            EffectModel::SinePulse(
                SinePulseModel {
                    id: None,
                    start,
                    period: (MAIN_PULSE_MILLIS * TICKS_PER_MILLI) as u64,
                    amplitude: MAIN_PULSE_LEVEL,
                    offset: MAIN_PULSE_LEVEL,
                    wrapped: Some(fresh_scratch(EffectModel::Solid(Rgb { r: FULL, g: 0, b: 0 }))),
                },
            ),
        ],
    )
}

/// The stack with a fade-in of `visual` on top.
pub open spec fn faded_in(stack: Seq<EffectModel>, visual: EffectModel, now: u64) -> Seq<
    EffectModel,
> {
    stack.push(fade(now, FADE_IN_MILLIS, FadeDirection::In, Some(visual)))
}

/// The stack drained into one bundle, with a fade-out of `millis`
/// milliseconds around it.
pub open spec fn faded_out(stack: Seq<EffectModel>, millis: u64, now: u64) -> Seq<EffectModel> {
    seq![fade(now, millis, FadeDirection::Out, Some(EffectModel::Bundle(stack)))]
}

/// `now` and `millis` milliseconds, or the end of time where that lies
/// behind it.
pub open spec fn later(now: u64, millis: u64) -> u64 {
    if now + millis * TICKS_PER_MILLI > u64::MAX {
        u64::MAX
    } else {
        (now + millis * TICKS_PER_MILLI) as u64
    }
}

impl Controller {
    /// What a controller that waits in `mode` waits for.
    pub open spec fn awaited(mode: Mode) -> Request {
        match mode {
            Mode::PreStartup => Request::Delay((SETTLE_MILLIS * TICKS_PER_MILLI) as u64),
            Mode::Startup => Request::NextEvent,
            Mode::Charging => Request::NextEvent,
            Mode::Main => Request::NextEvent,
            Mode::Pairing => Request::Delay((PAIRING_MILLIS * TICKS_PER_MILLI) as u64),
            _ => Request::Proceed,
        }
    }

    /// The controller and the shared state after the first half of a turn
    /// at the time `now`, and what the controller then waits for.
    pub open spec fn prepared(self, state: StateModel, now: u64) -> (
        Controller,
        StateModel,
        Request,
    ) {
        match self.stage {
            Stage::Ready => match state.mode {
                Mode::PreStartup | Mode::Charging | Mode::Main | Mode::Pairing => (
                    Controller { stage: Stage::Waiting, ..self },
                    state,
                    Self::awaited(state.mode),
                ),
                Mode::Startup => if state.charger_state.plugged_in() {
                    (self, StateModel { mode: Mode::PreCharging, ..state }, Request::Proceed)
                } else if !self.initial_hold {
                    (self, StateModel { mode: Mode::Shutdown, ..state }, Request::Proceed)
                } else {
                    (Controller { stage: Stage::Waiting, ..self }, state, Request::NextEvent)
                },
                Mode::PreCharging => (
                    self,
                    StateModel {
                        mode: Mode::Charging,
                        effect_stack: faded_in(state.effect_stack, charging_visual(now), now),
                        ..state
                    },
                    Request::Proceed,
                ),
                Mode::PreMain => (
                    self,
                    StateModel {
                        mode: Mode::Main,
                        effect_stack: faded_in(state.effect_stack, main_visual(now), now),
                        ..state
                    },
                    Request::Proceed,
                ),
                Mode::PrePairing => (
                    self,
                    StateModel { mode: Mode::Pairing, ..state },
                    Request::Proceed,
                ),
                Mode::Shutdown => {
                    let fading = state.effect_stack.len() > 0;
                    let until = if fading {
                        later(now, SHUTDOWN_FADE_MILLIS)
                    } else {
                        now
                    };
                    let after = if fading {
                        StateModel {
                            effect_stack: faded_out(state.effect_stack, SHUTDOWN_FADE_MILLIS, now),
                            ..state
                        }
                    } else {
                        state
                    };
                    (
                        Controller { stage: Stage::FadeOut { until }, ..self },
                        after,
                        Request::Until(until),
                    )
                },
            },
            Stage::Waiting => (self, state, Self::awaited(state.mode)),
            Stage::FadeOut { until } => (self, state, Request::Until(until)),
            Stage::Debounce => (self, state, Request::NextEvent),
            Stage::Grace => (self, state, Request::Delay((SETTLE_MILLIS * TICKS_PER_MILLI) as u64)),
            Stage::Off => (self, state, Request::PowerDown),
        }
    }

    /// The controller and the shared state after the second half of a
    /// turn, in which `response` came of what the controller waited for.
    /// A response that the controller did not wait for changes nothing.
    pub open spec fn resumed(self, state: StateModel, response: Response, now: u64) -> (
        Controller,
        StateModel,
    ) {
        let ready = Controller { stage: Stage::Ready, ..self };
        match (self.stage, response) {
            (Stage::Waiting, Response::Elapsed) => match state.mode {
                Mode::PreStartup => (
                    Controller { initial_hold: state.button_state.held(), stage: Stage::Ready },
                    StateModel { mode: Mode::Startup, ..state },
                ),
                Mode::Pairing => (ready, state),
                _ => (self, state),
            },
            (Stage::Waiting, Response::Event(event)) => match state.mode {
                Mode::Startup => match event {
                    Event::ButtonHold => (
                        ready,
                        StateModel { mode: Mode::PreMain, power: PowerState::On, ..state },
                    ),
                    Event::ButtonPress | Event::ButtonRelease => (
                        Controller { initial_hold: false, stage: Stage::Ready },
                        StateModel { mode: Mode::Shutdown, ..state },
                    ),
                    Event::ChargerPluggedIn => (
                        ready,
                        StateModel { mode: Mode::PreCharging, ..state },
                    ),
                    Event::ChargerUnplugged => (ready, state),
                },
                Mode::Charging => match event {
                    Event::ButtonHold => (
                        ready,
                        StateModel { power: state.power.toggled(), ..state },
                    ),
                    Event::ChargerUnplugged => match state.power {
                        PowerState::On => (
                            ready,
                            StateModel {
                                mode: Mode::PreMain,
                                effect_stack: faded_out(state.effect_stack, FADE_OUT_MILLIS, now),
                                ..state
                            },
                        ),
                        PowerState::Off => (ready, StateModel { mode: Mode::Shutdown, ..state }),
                    },
                    _ => (ready, state),
                },
                Mode::Main => match event {
                    Event::ButtonPress | Event::ButtonRelease => (
                        Controller { initial_hold: false, stage: Stage::Ready },
                        state,
                    ),
                    Event::ButtonHold => if self.initial_hold {
                        (ready, StateModel { mode: Mode::Pairing, ..state })
                    } else {
                        (
                            ready,
                            StateModel { mode: Mode::Shutdown, power: PowerState::Off, ..state },
                        )
                    },
                    Event::ChargerPluggedIn => (
                        ready,
                        StateModel {
                            mode: Mode::PreCharging,
                            effect_stack: faded_out(state.effect_stack, FADE_OUT_MILLIS, now),
                            ..state
                        },
                    ),
                    Event::ChargerUnplugged => (ready, state),
                },
                _ => (self, state),
            },
            (Stage::FadeOut { until }, Response::Elapsed) => if state.button_state.held() {
                (Controller { stage: Stage::Debounce, ..self }, state)
            } else {
                (Controller { stage: Stage::Grace, ..self }, StateModel { exit: true, ..state })
            },
            (Stage::Debounce, Response::Event(Event::ButtonRelease)) => (
                Controller { stage: Stage::Grace, ..self },
                StateModel { exit: true, ..state },
            ),
            (Stage::Grace, Response::Elapsed) => (Controller { stage: Stage::Off, ..self }, state),
            _ => (self, state),
        }
    }
}

/// The model of an effect in a box, where there is one.
pub open spec fn boxed_model(effect: Option<Box<Effect>>) -> Option<EffectModel> {
    match effect {
        Some(inner) => Some(inner.model()),
        None => None,
    }
}

/// Pushes a linear fade of `duration` milliseconds that starts at `now`.
fn push_fade(
    effect_stack: &mut Vec<Effect>,
    effect: Option<Box<Effect>>,
    duration: u64,
    direction: FadeDirection,
    now: u64,
)
    requires
        duration * TICKS_PER_MILLI <= u64::MAX,
    ensures
        stack_model(*final(effect_stack)) == stack_model(*old(effect_stack)).push(
            fade(now, duration, direction, boxed_model(effect)),
        ),
        stack_wf(*old(effect_stack)) && (effect matches Some(inner) ==> inner.model().wf())
            ==> stack_wf(*final(effect_stack)),
{
    let ghost before = stack_model(*effect_stack);
    let ghost wrapped = boxed_model(effect);
    let fade_effect = FadeTransitionEffect::new_at(
        now,
        None,
        millis(duration),
        FadeCurve::Linear,
        direction,
        effect,
    );
    effect_stack.push(Effect::FadeTransition(fade_effect));
    let ghost pushed = fade(now, duration, direction, wrapped);
    assert(stack_model(*effect_stack) =~= before.push(pushed));
    proof {
        if stack_wf(*old(effect_stack)) && (wrapped matches Some(inner) ==> inner.wf()) {
            assert(scratch_wf(pushed->FadeTransition_0.wrapped));
            assert(pushed.wf());
            assert forall|i: int| 0 <= i < effect_stack.len() implies (#[trigger] stack_model(
                *effect_stack,
            )[i]).wf() by {
                if i < before.len() {
                    assert(before.push(pushed)[i] == before[i]);
                }
            }
        }
    }
}

/// Pushes a linear fade-in of `duration` milliseconds around `effect` onto
/// the stack. The fade starts now, by the clock.
pub fn add_fade_in(effect_stack: &mut Vec<Effect>, effect: Option<Box<Effect>>, duration: u64)
    requires
        duration * TICKS_PER_MILLI <= u64::MAX,
    ensures
        exists|now: u64|
            stack_model(*final(effect_stack)) == stack_model(*old(effect_stack)).push(
                #[trigger] fade(now, duration, FadeDirection::In, boxed_model(effect)),
            ),
        stack_wf(*old(effect_stack)) && (effect matches Some(inner) ==> inner.model().wf())
            ==> stack_wf(*final(effect_stack)),
{
    push_fade(effect_stack, effect, duration, FadeDirection::In, now());
}

/// Pushes a linear fade-out of `duration` milliseconds around `effect`
/// onto the stack. The fade starts now, by the clock.
pub fn add_fade_out(effect_stack: &mut Vec<Effect>, effect: Option<Box<Effect>>, duration: u64)
    requires
        duration * TICKS_PER_MILLI <= u64::MAX,
    ensures
        exists|now: u64|
            stack_model(*final(effect_stack)) == stack_model(*old(effect_stack)).push(
                #[trigger] fade(now, duration, FadeDirection::Out, boxed_model(effect)),
            ),
        stack_wf(*old(effect_stack)) && (effect matches Some(inner) ==> inner.model().wf())
            ==> stack_wf(*final(effect_stack)),
{
    push_fade(effect_stack, effect, duration, FadeDirection::Out, now());
}

/// Drains the stack into one bundle and pushes a fade-out of `duration`
/// milliseconds around it, which starts at `now`.
fn fade_out_all(effect_stack: &mut Vec<Effect>, duration: u64, now: u64)
    requires
        duration * TICKS_PER_MILLI <= u64::MAX,
    ensures
        stack_model(*final(effect_stack)) == faded_out(
            stack_model(*old(effect_stack)),
            duration,
            now,
        ),
        stack_wf(*old(effect_stack)) ==> stack_wf(*final(effect_stack)),
{
    let ghost before = stack_model(*effect_stack);
    let mut bundle: Vec<Effect> = Vec::new();
    core::mem::swap(effect_stack, &mut bundle);
    proof {
        lemma_bundle_wf(before);
        assert(stack_model(*effect_stack) =~= Seq::empty());
    }
    push_fade(effect_stack, Some(Box::new(Effect::Bundle(bundle))), duration, FadeDirection::Out, now);
    assert(stack_model(*effect_stack) =~= faded_out(before, duration, now));
}

/// The charging visual, with its pulse starting at `now`.
pub fn charging_effect(now: u64) -> (effect: Effect)
    ensures
        effect@ == charging_visual(now),
        effect@.wf(),
{
    let mut members: Vec<Effect> = Vec::new();
    members.push(Effect::Solid(Rgb::white()));
    members.push(
        Effect::SinePulse(
            SinePulseEffect::new_at(
                now,
                None,
                millis(CHARGING_PULSE_MILLIS),
                CHARGING_PULSE_AMPLITUDE,
                CHARGING_PULSE_OFFSET,
                None,
            ),
        ),
    );
    proof {
        let models = stack_model(members);
        assert(models =~= charging_visual(now)->Bundle_0);
        assert(models[0].wf());
        assert(scratch_wf(models[1]->SinePulse_0.wrapped));
        assert(models[1].wf());
        lemma_bundle_wf(models);
    }
    Effect::Bundle(members)
}

/// The main visual, with its pulse starting at `now`.
pub fn main_effect(now: u64) -> (effect: Effect)
    ensures
        effect@ == main_visual(now),
        effect@.wf(),
{
    let mut members: Vec<Effect> = Vec::new();
    members.push(Effect::Solid(Rgb::new(0, FULL, FULL)));
    members.push(
        Effect::SinePulse(
            SinePulseEffect::new_at(
                now,
                None,
                millis(MAIN_PULSE_MILLIS),
                MAIN_PULSE_LEVEL,
                MAIN_PULSE_LEVEL,
                Some(Box::new(Effect::Solid(Rgb::new(FULL, 0, 0)))),
            ),
        ),
    );
    proof {
        let models = stack_model(members);
        assert(models =~= main_visual(now)->Bundle_0);
        assert(models[0].wf());
        assert(EffectModel::Solid(Rgb { r: FULL, g: 0, b: 0 }).wf());
        assert(scratch_wf(models[1]->SinePulse_0.wrapped));
        assert(models[1].wf());
        lemma_bundle_wf(models);
    }
    Effect::Bundle(members)
}

/// `now` and `duration` milliseconds, or the end of time where that lies
/// behind it.
fn deadline(now: u64, duration: u64) -> (at: u64)
    requires
        duration * TICKS_PER_MILLI <= u64::MAX,
    ensures
        at == later(now, duration),
{
    let ticks: u64 = millis(duration);
    if now > u64::MAX - ticks {
        u64::MAX
    } else {
        now + ticks
    }
}

impl Controller {
    /// The controller of a device that has just booted.
    pub fn new() -> (controller: Self)
        ensures
            controller == (Controller { initial_hold: false, stage: Stage::Ready }),
    {
        Controller { initial_hold: false, stage: Stage::Ready }
    }

    /// What a controller that waits in `mode` waits for.
    fn request_of(mode: Mode) -> (request: Request)
        ensures
            request == Self::awaited(mode),
    {
        match mode {
            Mode::PreStartup => Request::Delay(millis(SETTLE_MILLIS)),
            Mode::Startup | Mode::Charging | Mode::Main => Request::NextEvent,
            Mode::Pairing => Request::Delay(millis(PAIRING_MILLIS)),
            _ => Request::Proceed,
        }
    }

    /// The first half of a turn at the time `now`: runs the mode up to the
    /// point where it has to wait, and says what it waits for.
    pub fn prepare_at(&mut self, state: &mut State, now: u64) -> (request: Request)
        ensures
            (*final(self), final(state)@, request) == old(self).prepared(old(state)@, now),
            stack_wf(old(state).effect_stack) ==> stack_wf(final(state).effect_stack),
    {
        match self.stage {
            Stage::Ready => match state.mode {
                Mode::PreStartup | Mode::Charging | Mode::Main | Mode::Pairing => {
                    self.stage = Stage::Waiting;
                    Self::request_of(state.mode)
                },
                Mode::Startup => {
                    if state.charger_state.is_plugged_in() {
                        state.mode = Mode::PreCharging;
                        Request::Proceed
                    } else if !self.initial_hold {
                        state.mode = Mode::Shutdown;
                        Request::Proceed
                    } else {
                        self.stage = Stage::Waiting;
                        Request::NextEvent
                    }
                },
                Mode::PreCharging => {
                    let visual = charging_effect(now);
                    push_fade(
                        &mut state.effect_stack,
                        Some(Box::new(visual)),
                        FADE_IN_MILLIS,
                        FadeDirection::In,
                        now,
                    );
                    state.mode = Mode::Charging;
                    Request::Proceed
                },
                Mode::PreMain => {
                    let visual = main_effect(now);
                    push_fade(
                        &mut state.effect_stack,
                        Some(Box::new(visual)),
                        FADE_IN_MILLIS,
                        FadeDirection::In,
                        now,
                    );
                    state.mode = Mode::Main;
                    Request::Proceed
                },
                Mode::PrePairing => {
                    state.mode = Mode::Pairing;
                    Request::Proceed
                },
                Mode::Shutdown => {
                    let until: u64 = if state.effect_stack.len() > 0 {
                        fade_out_all(&mut state.effect_stack, SHUTDOWN_FADE_MILLIS, now);
                        deadline(now, SHUTDOWN_FADE_MILLIS)
                    } else {
                        now
                    };
                    self.stage = Stage::FadeOut { until };
                    Request::Until(until)
                },
            },
            Stage::Waiting => Self::request_of(state.mode),
            Stage::FadeOut { until } => Request::Until(until),
            Stage::Debounce => Request::NextEvent,
            Stage::Grace => Request::Delay(millis(SETTLE_MILLIS)),
            Stage::Off => Request::PowerDown,
        }
    }

    /// The second half of a turn: takes what came of the wait and runs the
    /// mode to the end of its turn. Effects that it makes start at `now`.
    pub fn resume_at(&mut self, state: &mut State, response: Response, now: u64)
        ensures
            (*final(self), final(state)@) == old(self).resumed(old(state)@, response, now),
            stack_wf(old(state).effect_stack) ==> stack_wf(final(state).effect_stack),
    {
        match (self.stage, response) {
            (Stage::Waiting, Response::Elapsed) => match state.mode {
                Mode::PreStartup => {
                    self.initial_hold = state.button_state.is_held();
                    self.stage = Stage::Ready;
                    state.mode = Mode::Startup;
                },
                Mode::Pairing => {
                    self.stage = Stage::Ready;
                },
                _ => {},
            },
            (Stage::Waiting, Response::Event(event)) => match state.mode {
                Mode::Startup => {
                    self.stage = Stage::Ready;
                    match event {
                        Event::ButtonHold => {
                            state.power.state = PowerState::On;
                            state.mode = Mode::PreMain;
                        },
                        Event::ButtonPress | Event::ButtonRelease => {
                            self.initial_hold = false;
                            state.mode = Mode::Shutdown;
                        },
                        Event::ChargerPluggedIn => {
                            state.mode = Mode::PreCharging;
                        },
                        Event::ChargerUnplugged => {},
                    }
                },
                Mode::Charging => {
                    self.stage = Stage::Ready;
                    match event {
                        Event::ButtonHold => {
                            state.power.state = core::ops::Not::not(state.power.state);
                        },
                        Event::ChargerUnplugged => match state.power.state {
                            PowerState::On => {
                                fade_out_all(&mut state.effect_stack, FADE_OUT_MILLIS, now);
                                state.mode = Mode::PreMain;
                            },
                            PowerState::Off => {
                                state.mode = Mode::Shutdown;
                            },
                        },
                        _ => {},
                    }
                },
                Mode::Main => {
                    self.stage = Stage::Ready;
                    match event {
                        Event::ButtonPress | Event::ButtonRelease => {
                            self.initial_hold = false;
                        },
                        Event::ButtonHold => {
                            if self.initial_hold {
                                state.mode = Mode::Pairing;
                            } else {
                                state.power.state = PowerState::Off;
                                state.mode = Mode::Shutdown;
                            }
                        },
                        Event::ChargerPluggedIn => {
                            fade_out_all(&mut state.effect_stack, FADE_OUT_MILLIS, now);
                            state.mode = Mode::PreCharging;
                        },
                        Event::ChargerUnplugged => {},
                    }
                },
                _ => {},
            },
            (Stage::FadeOut { until }, Response::Elapsed) => {
                if state.button_state.is_held() {
                    self.stage = Stage::Debounce;
                } else {
                    state.exit = true;
                    self.stage = Stage::Grace;
                }
            },
            (Stage::Debounce, Response::Event(Event::ButtonRelease)) => {
                state.exit = true;
                self.stage = Stage::Grace;
            },
            (Stage::Grace, Response::Elapsed) => {
                self.stage = Stage::Off;
            },
            _ => {},
        }
    }

    /// The first half of a turn, at the present time by the clock.
    pub fn prepare(&mut self, state: &mut State) -> (request: Request)
        ensures
            exists|now: u64|
                (*final(self), final(state)@, request) == #[trigger] old(self).prepared(
                    old(state)@,
                    now,
                ),
            stack_wf(old(state).effect_stack) ==> stack_wf(final(state).effect_stack),
    {
        self.prepare_at(state, now())
    }

    /// The second half of a turn, at the present time by the clock.
    pub fn resume(&mut self, state: &mut State, response: Response)
        ensures
            exists|now: u64|
                (*final(self), final(state)@) == #[trigger] old(self).resumed(
                    old(state)@,
                    response,
                    now,
                ),
            stack_wf(old(state).effect_stack) ==> stack_wf(final(state).effect_stack),
    {
        self.resume_at(state, response, now())
    }
}

/// The controller and the shared state after each of `events` was
/// received in a turn of its own, the turn for `events[i]` at `times[i]`.
pub open spec fn fed(
    controller: Controller,
    state: StateModel,
    events: Seq<Event>,
    times: Seq<u64>,
) -> (Controller, StateModel)
    decreases events.len(),
{
    if events.len() == 0 || times.len() != events.len() {
        (controller, state)
    } else {
        let (waiting, prepared, _) = controller.prepared(state, times.first());
        let (next, after) = waiting.resumed(
            prepared,
            Response::Event(events.first()),
            times.first(),
        );
        fed(next, after, events.drop_first(), times.drop_first())
    }
}

/// A shutdown that found the button held after its fade-out waits for the
/// release and for nothing else: however many other events arrive, the
/// controller stays where it is and goes on asking for the next event, and
/// the shared state, with the exit signal in it, stays as it is.
pub proof fn lemma_shutdown_waits_for_release(
    controller: Controller,
    state: StateModel,
    events: Seq<Event>,
    times: Seq<u64>,
)
    requires
        controller.stage is Debounce,
        times.len() == events.len(),
        forall|i: int| 0 <= i < events.len() ==> #[trigger] events[i] != Event::ButtonRelease,
    ensures
        fed(controller, state, events, times) == (controller, state),
        forall|now: u64|
            (#[trigger] fed(controller, state, events, times).0.prepared(state, now)).2
                == Request::NextEvent,
    decreases events.len(),
{
    if events.len() > 0 {
        assert(events[0] == events.first());
        assert forall|i: int| 0 <= i < events.drop_first().len() implies #[trigger] events.drop_first()[i]
            != Event::ButtonRelease by {
            assert(events.drop_first()[i] == events[i + 1]);
        }
        lemma_shutdown_waits_for_release(
            controller,
            state,
            events.drop_first(),
            times.drop_first(),
        );
    }
}

/// A shutdown looks at the button once its visuals have faded out: held,
/// it leads to the wait for the release, and the exit signal is not given;
/// not held, the exit signal is given at once.
pub proof fn lemma_fade_out_ends_at_the_button(
    controller: Controller,
    state: StateModel,
    now: u64,
)
    requires
        controller.stage is FadeOut,
    ensures
        ({
            let (next, after) = controller.resumed(state, Response::Elapsed, now);
            if state.button_state.held() {
                next.stage == Stage::Debounce && after == state
            } else {
                next.stage == Stage::Grace && after == (StateModel { exit: true, ..state })
            }
        }),
{
}

/// The release of the button ends the wait of a shutdown and gives the
/// exit signal; the grace period follows.
pub proof fn lemma_release_ends_debounce(controller: Controller, state: StateModel, now: u64)
    requires
        controller.stage is Debounce,
    ensures
        ({
            let (next, after) = controller.resumed(
                state,
                Response::Event(Event::ButtonRelease),
                now,
            );
            &&& next.stage == Stage::Grace
            &&& after == (StateModel { exit: true, ..state })
            &&& next.prepared(after, now).2 == Request::Delay(
                (SETTLE_MILLIS * TICKS_PER_MILLI) as u64,
            )
        }),
{
}

/// The stages of a shutdown occur in no other mode, and the last two of
/// them only with the exit signal given.
pub open spec fn consistent(controller: Controller, state: StateModel) -> bool {
    &&& controller.stage is Ready || controller.stage is Waiting || state.mode == Mode::Shutdown
    &&& controller.stage is Grace || controller.stage is Off ==> state.exit
}

/// A turn keeps the stage and the mode consistent, a shutdown is never
/// left again, and the exit signal, once given, stays given. It is given
/// nowhere but in a shutdown: at the end of the fade-out where the button
/// is not held then, and else at the release of the button. The power is
/// asked to go down only in a shutdown, with the exit signal given.
pub proof fn lemma_shutdown_is_final(
    controller: Controller,
    state: StateModel,
    response: Response,
    now: u64,
)
    requires
        consistent(controller, state),
    ensures
        ({
            let (prepared, after, request) = controller.prepared(state, now);
            &&& consistent(prepared, after)
            &&& state.mode == Mode::Shutdown ==> after.mode == Mode::Shutdown
            &&& after.exit == state.exit
            &&& request == Request::PowerDown ==> state.exit && state.mode == Mode::Shutdown
        }),
        ({
            let (resumed, after) = controller.resumed(state, response, now);
            &&& consistent(resumed, after)
            &&& state.mode == Mode::Shutdown ==> after.mode == Mode::Shutdown
            &&& state.exit ==> after.exit
            &&& after.exit && !state.exit ==> {
                &&& state.mode == Mode::Shutdown
                &&& resumed.stage == Stage::Grace
                &&& (controller.stage is FadeOut && response == Response::Elapsed
                    && !state.button_state.held()) || (controller.stage is Debounce && response
                    == Response::Event(Event::ButtonRelease))
            }
        }),
{
}

/// The power goes down only after the exit signal and the grace period:
/// the controller asks for it in no stage but the last, which it reaches
/// from the grace period alone, and the grace period begins with the exit
/// signal given.
pub proof fn lemma_power_down_comes_last(
    controller: Controller,
    state: StateModel,
    response: Response,
    now: u64,
)
    ensures
        controller.prepared(state, now).2 == Request::PowerDown <==> controller.stage == Stage::Off,
        controller.resumed(state, response, now).0.stage == Stage::Off ==> controller.stage
            == Stage::Off || (controller.stage == Stage::Grace && response == Response::Elapsed),
        controller.resumed(state, response, now).0.stage == Stage::Grace ==> controller.stage
            == Stage::Grace || controller.resumed(state, response, now).1.exit,
        controller.prepared(state, now).0.stage == Stage::Grace ==> controller.stage
            == Stage::Grace,
        controller.prepared(state, now).0.stage == Stage::Off ==> controller.stage == Stage::Off,
{
}

} // verus!
