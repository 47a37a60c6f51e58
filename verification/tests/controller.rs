use firmware::controller::{
    add_fade_in, add_fade_out, charging_effect, main_effect, Controller, Request, Response, Stage,
};
use firmware::effect::{
    update_stack, Effect, FadeCurve, FadeDirection, FadeTransitionEffect, SinePulseEffect,
};
use firmware::event::{
    button_input, ButtonMonitor, ButtonState, ChargerState, Event, Level, Wake,
};
use firmware::power::PowerState;
use firmware::render::rgb::{Rgb, FULL};
use firmware::state::{Mode, State};

fn fade(start: u64, millis: u64, direction: FadeDirection, inner: Effect) -> Effect {
    Effect::FadeTransition(FadeTransitionEffect::new_at(
        start,
        None,
        millis * 1000,
        FadeCurve::Linear,
        direction,
        Some(Box::new(inner)),
    ))
}

/// A device in the main mode, switched on, with the steady main visual.
fn in_main(start: u64) -> (Controller, State) {
    let mut state = State::initialize();
    state.mode = Mode::Main;
    state.power.state = PowerState::On;
    state.effect_stack.push(main_effect(start));
    (Controller { initial_hold: false, stage: Stage::Ready }, state)
}

#[test]
fn visuals() {
    assert_eq!(
        charging_effect(7),
        Effect::Bundle(vec![
            Effect::Solid(Rgb::white()),
            Effect::SinePulse(SinePulseEffect::new_at(7, None, 5_000_000, 4896, 55488, None)),
        ])
    );
    assert_eq!(
        main_effect(7),
        Effect::Bundle(vec![
            Effect::Solid(Rgb::new(0, FULL, FULL)),
            Effect::SinePulse(SinePulseEffect::new_at(
                7,
                None,
                3_000_000,
                32640,
                32640,
                Some(Box::new(Effect::Solid(Rgb::new(FULL, 0, 0)))),
            )),
        ])
    );
}

#[test]
fn fades_are_pushed_with_their_duration_in_ticks() {
    let mut stack = vec![Effect::Solid(Rgb::white())];
    add_fade_in(&mut stack, Some(Box::new(Effect::Solid(Rgb::black()))), 1000);
    add_fade_out(&mut stack, None, 1500);
    assert_eq!(stack.len(), 3);
    assert_eq!(stack[0], Effect::Solid(Rgb::white()));
    match &stack[1] {
        Effect::FadeTransition(fade) => {
            assert_eq!(fade.id, None);
            assert_eq!(fade.duration, 1_000_000);
            assert_eq!(fade.fade_curve, FadeCurve::Linear);
            assert_eq!(fade.fade_direction, FadeDirection::In);
            assert_eq!(*fade.wrapped.as_ref().unwrap().effect, Effect::Solid(Rgb::black()));
        }
        other => panic!("unexpected effect {:?}", other),
    }
    match &stack[2] {
        Effect::FadeTransition(fade) => {
            assert_eq!(fade.duration, 1_500_000);
            assert_eq!(fade.fade_direction, FadeDirection::Out);
            assert!(fade.wrapped.is_none());
        }
        other => panic!("unexpected effect {:?}", other),
    }
}

#[test]
fn boot_with_the_button_held_leads_to_the_main_mode() {
    let mut state = State::initialize();
    let mut controller = Controller::new();
    let mut button = ButtonMonitor::new(Level::Low, 0);
    state.button_state = button.published;
    assert!(state.get_button_state().is_held());

    // PreStartup: let the inputs settle, then note that the button is held.
    assert_eq!(controller.prepare_at(&mut state, 0), Request::Delay(1_000));
    controller.resume_at(&mut state, Response::Elapsed, 1_000);
    assert_eq!(state.get_mode(), Mode::Startup);
    assert!(controller.initial_hold);

    // Startup: the charger is not plugged in, so wait for the hold.
    assert_eq!(controller.prepare_at(&mut state, 1_000), Request::NextEvent);
    assert_eq!(state.get_mode(), Mode::Startup);
    let hold = button_input(&mut button, Wake::HoldTimer, 1_500_000);
    assert_eq!(hold.event, Some(Event::ButtonHold));
    controller.resume_at(&mut state, Response::Event(Event::ButtonHold), 1_500_000);
    assert_eq!(state.get_mode(), Mode::PreMain);
    assert_eq!(state.power.state, PowerState::On);

    // PreMain: the main visual fades in.
    assert_eq!(controller.prepare_at(&mut state, 1_500_000), Request::Proceed);
    assert_eq!(state.get_mode(), Mode::Main);
    assert_eq!(
        state.effect_stack,
        vec![fade(1_500_000, 1000, FadeDirection::In, main_effect(1_500_000))]
    );
    assert_eq!(controller.prepare_at(&mut state, 1_500_001), Request::NextEvent);

    // The fade is on the stack for 1000 ms, then the steady visual takes its place.
    update_stack(&mut state.effect_stack, 2_000_000);
    assert!(matches!(state.effect_stack[0], Effect::FadeTransition(_)));
    update_stack(&mut state.effect_stack, 2_499_999);
    assert!(matches!(state.effect_stack[0], Effect::FadeTransition(_)));
    update_stack(&mut state.effect_stack, 2_500_000);
    assert_eq!(state.effect_stack.len(), 1);
    // The pulse of the visual has run for a third of its period and keeps its start.
    assert_eq!(state.effect_stack, vec![main_effect(1_500_000)]);
}

#[test]
fn charger_plugged_in_while_in_main_fades_over_to_charging() {
    let (mut controller, mut state) = in_main(0);
    assert_eq!(controller.prepare_at(&mut state, 10_000_000), Request::NextEvent);
    controller.resume_at(&mut state, Response::Event(Event::ChargerPluggedIn), 10_000_000);
    assert_eq!(state.get_mode(), Mode::PreCharging);
    assert_eq!(
        state.effect_stack,
        vec![fade(
            10_000_000,
            1500,
            FadeDirection::Out,
            Effect::Bundle(vec![main_effect(0)]),
        )]
    );

    assert_eq!(controller.prepare_at(&mut state, 10_000_000), Request::Proceed);
    assert_eq!(state.get_mode(), Mode::Charging);
    assert_eq!(state.effect_stack.len(), 2);
    assert_eq!(
        state.effect_stack[1],
        fade(10_000_000, 1000, FadeDirection::In, charging_effect(10_000_000))
    );
    assert_eq!(controller.prepare_at(&mut state, 10_000_000), Request::NextEvent);

    // After 1500 ms only the charging visual is left.
    update_stack(&mut state.effect_stack, 11_499_999);
    assert_eq!(state.effect_stack.len(), 2);
    update_stack(&mut state.effect_stack, 11_500_000);
    assert_eq!(state.effect_stack, vec![charging_effect(10_000_000)]);
}

#[test]
fn shutdown_with_the_button_held_waits_for_its_release() {
    let (mut controller, mut state) = in_main(0);
    state.mode = Mode::Shutdown;
    state.button_state = ButtonState::Held(5);

    // The visuals fade out first, whatever the button does.
    assert_eq!(controller.prepare_at(&mut state, 1_000_000), Request::Until(1_500_000));
    assert_eq!(controller.stage, Stage::FadeOut { until: 1_500_000 });
    assert_eq!(
        state.effect_stack,
        vec![fade(
            1_000_000,
            500,
            FadeDirection::Out,
            Effect::Bundle(vec![main_effect(0)]),
        )]
    );
    // Events that arrive during the fade-out do not end it.
    controller.resume_at(&mut state, Response::Event(Event::ButtonRelease), 1_200_000);
    assert_eq!(controller.stage, Stage::FadeOut { until: 1_500_000 });
    assert_eq!(controller.prepare_at(&mut state, 1_200_000), Request::Until(1_500_000));

    // The button is still held when the wait ends: wait for its release.
    controller.resume_at(&mut state, Response::Elapsed, 1_500_000);
    assert_eq!(controller.stage, Stage::Debounce);
    assert!(!state.exit);
    assert_eq!(controller.prepare_at(&mut state, 1_500_000), Request::NextEvent);

    let others = [
        Event::ButtonHold,
        Event::ButtonPress,
        Event::ChargerPluggedIn,
        Event::ChargerUnplugged,
        Event::ButtonHold,
        Event::ButtonPress,
    ];
    let mut now = 1_500_000;
    for _ in 0..50 {
        for event in others {
            now += 700_000;
            controller.resume_at(&mut state, Response::Event(event), now);
            assert_eq!(controller.stage, Stage::Debounce);
            assert!(!state.exit);
            assert_eq!(controller.prepare_at(&mut state, now), Request::NextEvent);
            assert_eq!(state.get_mode(), Mode::Shutdown);
            assert_eq!(state.effect_stack.len(), 1);
        }
    }
    // The passing of time does not end the wait either.
    controller.resume_at(&mut state, Response::Elapsed, now);
    assert_eq!(controller.stage, Stage::Debounce);
    assert!(!state.exit);

    // The release gives the exit signal; grace and power-down follow.
    controller.resume_at(&mut state, Response::Event(Event::ButtonRelease), now);
    assert_eq!(controller.stage, Stage::Grace);
    assert!(state.exit);
    assert_eq!(controller.prepare_at(&mut state, now), Request::Delay(1_000));
    controller.resume_at(&mut state, Response::Elapsed, now);
    assert_eq!(controller.stage, Stage::Off);
    assert_eq!(controller.prepare_at(&mut state, now), Request::PowerDown);
    assert_eq!(controller.prepare_at(&mut state, now), Request::PowerDown);
    assert_eq!(state.get_mode(), Mode::Shutdown);
}

#[test]
fn button_pressed_during_the_fade_out_holds_the_shutdown_back() {
    let (mut controller, mut state) = in_main(0);
    state.mode = Mode::Shutdown;
    assert_eq!(state.get_button_state(), ButtonState::NotHeld);
    assert_eq!(controller.prepare_at(&mut state, 0), Request::Until(500_000));

    // The button goes down while the visuals fade out.
    state.button_state = ButtonState::Held(300_000);
    controller.resume_at(&mut state, Response::Elapsed, 500_000);
    assert_eq!(controller.stage, Stage::Debounce);
    assert!(!state.exit);
    assert_eq!(controller.prepare_at(&mut state, 500_000), Request::NextEvent);
    controller.resume_at(&mut state, Response::Event(Event::ButtonHold), 1_800_000);
    assert!(!state.exit);
    assert_eq!(controller.prepare_at(&mut state, 1_800_000), Request::NextEvent);
    controller.resume_at(&mut state, Response::Event(Event::ButtonRelease), 2_000_000);
    assert!(state.exit);
    assert_eq!(controller.stage, Stage::Grace);
}

#[test]
fn button_released_during_the_fade_out_lets_the_shutdown_go_on() {
    let (mut controller, mut state) = in_main(0);
    state.mode = Mode::Shutdown;
    state.button_state = ButtonState::Held(0);
    assert_eq!(controller.prepare_at(&mut state, 0), Request::Until(500_000));
    state.button_state = ButtonState::NotHeld;
    controller.resume_at(&mut state, Response::Elapsed, 500_000);
    assert_eq!(controller.stage, Stage::Grace);
    assert!(state.exit);
}

#[test]
fn shutdown_without_effects_and_with_the_button_released_goes_straight_on() {
    let mut state = State::initialize();
    state.mode = Mode::Shutdown;
    let mut controller = Controller::new();
    assert_eq!(controller.prepare_at(&mut state, 77), Request::Until(77));
    assert!(state.effect_stack.is_empty());
    assert_eq!(controller.stage, Stage::FadeOut { until: 77 });
    // An event that nobody asked for changes nothing.
    controller.resume_at(&mut state, Response::Event(Event::ButtonRelease), 78);
    assert_eq!(controller.stage, Stage::FadeOut { until: 77 });
    assert!(!state.exit);
    controller.resume_at(&mut state, Response::Elapsed, 78);
    assert!(state.exit);
    assert_eq!(controller.stage, Stage::Grace);
    controller.resume_at(&mut state, Response::Elapsed, 79);
    assert_eq!(controller.stage, Stage::Off);
}

#[test]
fn boot_without_a_hold_shuts_down() {
    let mut state = State::initialize();
    let mut controller = Controller::new();
    assert_eq!(controller.prepare_at(&mut state, 0), Request::Delay(1_000));
    // Asking again before the answer came repeats the request.
    assert_eq!(controller.prepare_at(&mut state, 0), Request::Delay(1_000));
    controller.resume_at(&mut state, Response::Elapsed, 1_000);
    assert!(!controller.initial_hold);
    assert_eq!(controller.prepare_at(&mut state, 1_000), Request::Proceed);
    assert_eq!(state.get_mode(), Mode::Shutdown);
}

#[test]
fn boot_on_the_charger_goes_to_charging() {
    let mut state = State::initialize();
    state.charger_state = ChargerState::PluggedIn;
    state.mode = Mode::Startup;
    let mut controller = Controller::new();
    assert_eq!(controller.prepare_at(&mut state, 5), Request::Proceed);
    assert_eq!(state.get_mode(), Mode::PreCharging);
    assert_eq!(controller.prepare_at(&mut state, 5), Request::Proceed);
    assert_eq!(state.get_mode(), Mode::Charging);
    assert_eq!(
        state.effect_stack,
        vec![fade(5, 1000, FadeDirection::In, charging_effect(5))]
    );
}

fn waiting_in_startup() -> (Controller, State) {
    let mut state = State::initialize();
    state.mode = Mode::Startup;
    let mut controller = Controller { initial_hold: true, stage: Stage::Ready };
    assert_eq!(controller.prepare_at(&mut state, 0), Request::NextEvent);
    assert_eq!(controller.stage, Stage::Waiting);
    (controller, state)
}

#[test]
fn startup_reacts_to_events() {
    for event in [Event::ButtonPress, Event::ButtonRelease] {
        let (mut controller, mut state) = waiting_in_startup();
        controller.resume_at(&mut state, Response::Event(event), 1);
        assert_eq!(state.get_mode(), Mode::Shutdown);
        assert!(!controller.initial_hold);
        assert_eq!(state.power.state, PowerState::Off);
    }
    let (mut controller, mut state) = waiting_in_startup();
    controller.resume_at(&mut state, Response::Event(Event::ChargerPluggedIn), 1);
    assert_eq!(state.get_mode(), Mode::PreCharging);
    assert!(controller.initial_hold);

    let (mut controller, mut state) = waiting_in_startup();
    controller.resume_at(&mut state, Response::Event(Event::ChargerUnplugged), 1);
    assert_eq!(state.get_mode(), Mode::Startup);
    assert_eq!(controller.stage, Stage::Ready);
    assert_eq!(controller.prepare_at(&mut state, 2), Request::NextEvent);

    let (mut controller, mut state) = waiting_in_startup();
    controller.resume_at(&mut state, Response::Elapsed, 1);
    assert_eq!(state.get_mode(), Mode::Startup);
    assert_eq!(controller.stage, Stage::Waiting);
}

fn waiting_in_charging(power: PowerState) -> (Controller, State) {
    let mut state = State::initialize();
    state.mode = Mode::Charging;
    state.power.state = power;
    state.effect_stack.push(charging_effect(0));
    let mut controller = Controller::new();
    assert_eq!(controller.prepare_at(&mut state, 0), Request::NextEvent);
    (controller, state)
}

#[test]
fn charging_toggles_the_power_on_a_hold() {
    let (mut controller, mut state) = waiting_in_charging(PowerState::Off);
    controller.resume_at(&mut state, Response::Event(Event::ButtonHold), 1);
    assert_eq!(state.power.state, PowerState::On);
    assert_eq!(state.get_mode(), Mode::Charging);
    assert_eq!(controller.prepare_at(&mut state, 2), Request::NextEvent);
    controller.resume_at(&mut state, Response::Event(Event::ButtonHold), 3);
    assert_eq!(state.power.state, PowerState::Off);
    assert_eq!(state.get_mode(), Mode::Charging);
    assert_eq!(state.effect_stack, vec![charging_effect(0)]);
}

#[test]
fn unplugging_leads_to_main_when_on_and_to_shutdown_when_off() {
    let (mut controller, mut state) = waiting_in_charging(PowerState::On);
    controller.resume_at(&mut state, Response::Event(Event::ChargerUnplugged), 9);
    assert_eq!(state.get_mode(), Mode::PreMain);
    assert_eq!(
        state.effect_stack,
        vec![fade(9, 1500, FadeDirection::Out, Effect::Bundle(vec![charging_effect(0)]))]
    );
    assert_eq!(controller.prepare_at(&mut state, 10), Request::Proceed);
    assert_eq!(state.get_mode(), Mode::Main);
    assert_eq!(state.effect_stack.len(), 2);
    assert_eq!(
        state.effect_stack[1],
        fade(10, 1000, FadeDirection::In, main_effect(10))
    );

    let (mut controller, mut state) = waiting_in_charging(PowerState::Off);
    controller.resume_at(&mut state, Response::Event(Event::ChargerUnplugged), 9);
    assert_eq!(state.get_mode(), Mode::Shutdown);
    assert_eq!(state.effect_stack, vec![charging_effect(0)]);
}

#[test]
fn charging_ignores_other_events() {
    for event in [Event::ButtonPress, Event::ButtonRelease, Event::ChargerPluggedIn] {
        let (mut controller, mut state) = waiting_in_charging(PowerState::On);
        controller.resume_at(&mut state, Response::Event(event), 9);
        assert_eq!(state.get_mode(), Mode::Charging);
        assert_eq!(state.power.state, PowerState::On);
        assert_eq!(state.effect_stack, vec![charging_effect(0)]);
        assert_eq!(controller.stage, Stage::Ready);
    }
}

#[test]
fn hold_in_main_pairs_after_the_initial_hold_and_shuts_down_otherwise() {
    let (mut controller, mut state) = in_main(0);
    controller.initial_hold = true;
    assert_eq!(controller.prepare_at(&mut state, 1), Request::NextEvent);
    controller.resume_at(&mut state, Response::Event(Event::ButtonHold), 2);
    assert_eq!(state.get_mode(), Mode::Pairing);
    assert_eq!(state.power.state, PowerState::On);
    assert_eq!(controller.prepare_at(&mut state, 3), Request::Delay(3_000_000));
    controller.resume_at(&mut state, Response::Elapsed, 4);
    assert_eq!(state.get_mode(), Mode::Pairing);
    assert_eq!(controller.prepare_at(&mut state, 5), Request::Delay(3_000_000));

    let (mut controller, mut state) = in_main(0);
    assert_eq!(controller.prepare_at(&mut state, 1), Request::NextEvent);
    controller.resume_at(&mut state, Response::Event(Event::ButtonHold), 2);
    assert_eq!(state.get_mode(), Mode::Shutdown);
    assert_eq!(state.power.state, PowerState::Off);
}

#[test]
fn press_and_release_in_main_end_the_initial_hold() {
    for event in [Event::ButtonPress, Event::ButtonRelease] {
        let (mut controller, mut state) = in_main(0);
        controller.initial_hold = true;
        assert_eq!(controller.prepare_at(&mut state, 1), Request::NextEvent);
        controller.resume_at(&mut state, Response::Event(event), 2);
        assert!(!controller.initial_hold);
        assert_eq!(state.get_mode(), Mode::Main);
        assert_eq!(state.effect_stack, vec![main_effect(0)]);
    }
    let (mut controller, mut state) = in_main(0);
    assert_eq!(controller.prepare_at(&mut state, 1), Request::NextEvent);
    controller.resume_at(&mut state, Response::Event(Event::ChargerUnplugged), 2);
    assert_eq!(state.get_mode(), Mode::Main);
    assert_eq!(controller.stage, Stage::Ready);
}

#[test]
fn pre_pairing_goes_to_pairing() {
    let mut state = State::initialize();
    state.mode = Mode::PrePairing;
    let mut controller = Controller::new();
    assert_eq!(controller.prepare_at(&mut state, 0), Request::Proceed);
    assert_eq!(state.get_mode(), Mode::Pairing);
}

#[test]
fn controller_reads_the_clock() {
    let mut state = State::initialize();
    state.mode = Mode::PreMain;
    let mut controller = Controller::new();
    assert_eq!(controller.prepare(&mut state), Request::Proceed);
    assert_eq!(state.get_mode(), Mode::Main);
    assert_eq!(state.effect_stack.len(), 1);
    assert_eq!(controller.prepare(&mut state), Request::NextEvent);
    controller.resume(&mut state, Response::Event(Event::ChargerPluggedIn));
    assert_eq!(state.get_mode(), Mode::PreCharging);
    assert_eq!(state.effect_stack.len(), 1);
    match &state.effect_stack[0] {
        Effect::FadeTransition(fade) => {
            assert_eq!(fade.duration, 1_500_000);
            assert_eq!(fade.fade_direction, FadeDirection::Out);
        }
        other => panic!("unexpected effect {:?}", other),
    }
}
