use firmware::effect::fade_transition::{fade_level, fraction};
use firmware::effect::sine_pulse::{phase, pulse_level, restart, SineTable, SINE_STEPS};
use firmware::effect::{
    apply_stack, blend_into, fill, stack_display_mode, stack_well_formed, update_stack, wrap,
    wrapped_well_formed, DisplayMode, Effect,
    EffectBuffer, EffectEvent, EffectId, FadeCurve, FadeDirection, FadeTransitionEffect,
    SinePulseEffect,
};
use firmware::render::rgb::{Rgb, FULL};
use firmware::render::LED_COUNT;

fn sine_table() -> SineTable {
    let mut samples = Vec::new();
    for i in 0..SINE_STEPS {
        let angle = 2.0 * std::f64::consts::PI * (i as f64) / (SINE_STEPS as f64);
        samples.push((angle.sin() * (FULL as f64)).round() as i32);
    }
    SineTable::new(samples).unwrap()
}

fn red() -> Rgb {
    Rgb::new(FULL, 0, 0)
}

fn green() -> Rgb {
    Rgb::new(0, FULL, 0)
}

fn blue() -> Rgb {
    Rgb::new(0, 0, FULL)
}

fn boxed(effect: Effect) -> Option<Box<Effect>> {
    Some(Box::new(effect))
}

fn fade(start: u64, duration: u64, direction: FadeDirection, inner: Effect) -> Effect {
    Effect::FadeTransition(FadeTransitionEffect::new_at(
        start,
        None,
        duration,
        FadeCurve::Linear,
        direction,
        boxed(inner),
    ))
}

#[test]
fn sine_table_takes_a_sine_wave() {
    let table = sine_table();
    assert_eq!(table.sample(0), 0);
    assert_eq!(table.sample(64), FULL);
    assert_eq!(table.sample(128), 0);
    assert_eq!(table.sample(192), -FULL);
}

#[test]
fn sine_table_refuses_what_is_no_wave() {
    assert!(SineTable::new(vec![0; 255]).is_none());
    assert!(SineTable::new(vec![0; 257]).is_none());
    let mut high = vec![0; 256];
    high[5] = FULL + 1;
    assert!(SineTable::new(high).is_none());
    let mut low = vec![0; 256];
    low[200] = -FULL - 1;
    assert!(SineTable::new(low).is_none());
    let mut start = vec![0; 256];
    start[0] = 1;
    assert!(SineTable::new(start).is_none());
    let mut middle = vec![0; 256];
    middle[128] = -1;
    assert!(SineTable::new(middle).is_none());
    assert!(SineTable::new(vec![0; 256]).is_some());
}

#[test]
fn display_modes_of_the_built_in_effects() {
    assert_eq!(Effect::Solid(red()).display_mode(), DisplayMode::Opaque);
    let pulse = SinePulseEffect::new_at(0, None, 1000, 100, 200, boxed(Effect::Solid(red())));
    assert_eq!(pulse.display_mode(), DisplayMode::Blend);
    assert_eq!(Effect::SinePulse(pulse).display_mode(), DisplayMode::Blend);
    let fade_in = fade(0, 1000, FadeDirection::In, Effect::Solid(red()));
    assert_eq!(fade_in.display_mode(), DisplayMode::Blend);
}

#[test]
fn a_bundle_is_opaque_where_a_member_is() {
    let blend_only = vec![
        fade(0, 10, FadeDirection::In, Effect::Solid(red())),
        Effect::SinePulse(SinePulseEffect::new_at(0, None, 10, 1, 1, None)),
    ];
    assert_eq!(stack_display_mode(&blend_only), DisplayMode::Blend);
    assert_eq!(Effect::Bundle(blend_only).display_mode(), DisplayMode::Blend);
    let with_solid = vec![
        fade(0, 10, FadeDirection::In, Effect::Solid(red())),
        Effect::Solid(green()),
        Effect::SinePulse(SinePulseEffect::new_at(0, None, 10, 1, 1, None)),
    ];
    assert_eq!(stack_display_mode(&with_solid), DisplayMode::Opaque);
    assert_eq!(stack_display_mode(&Vec::new()), DisplayMode::Blend);
    let nested = vec![Effect::Bundle(vec![Effect::Solid(red())])];
    assert_eq!(stack_display_mode(&nested), DisplayMode::Opaque);
}

#[test]
fn identities() {
    assert_eq!(Effect::Solid(red()).id(), None);
    let pulse = SinePulseEffect::new_at(0, Some(EffectId(7)), 1000, 1, 2, None);
    assert_eq!(pulse.id(), Some(EffectId(7)));
    assert_eq!(Effect::SinePulse(pulse).id(), Some(EffectId(7)));
    let fade_out = FadeTransitionEffect::new_at(
        0,
        Some(EffectId(9)),
        5,
        FadeCurve::EaseIn,
        FadeDirection::Out,
        None,
    );
    assert_eq!(fade_out.id(), Some(EffectId(9)));
    assert_eq!(Effect::FadeTransition(fade_out).id(), Some(EffectId(9)));
    assert_eq!(Effect::Bundle(Vec::new()).id(), None);
}

#[test]
fn a_wrapped_effect_gets_a_black_scratch_buffer_of_the_strip() {
    let wrapped = wrap(boxed(Effect::Solid(red()))).unwrap();
    assert_eq!(wrapped.buffer.len(), LED_COUNT);
    assert!(wrapped.buffer.iter().all(|p| *p == Rgb::black()));
    assert_eq!(*wrapped.effect, Effect::Solid(red()));
    assert!(wrap(None).is_none());
    let small = EffectBuffer::new(Box::new(Effect::Solid(red())), 3);
    assert_eq!(small.buffer, vec![Rgb::black(); 3]);
}

#[test]
fn stack_renders_from_the_topmost_opaque_effect() {
    let wave = sine_table();
    let a = Effect::Solid(red());
    let b = Effect::SinePulse(SinePulseEffect::new_at(
        0,
        None,
        1000,
        0,
        FULL,
        boxed(Effect::Solid(green())),
    ));
    let c = Effect::Solid(blue());
    let d = fade(0, 1000, FadeDirection::In, Effect::Solid(Rgb::white()));
    let mut stack = vec![a, b, c, d];
    let mut buffer = vec![Rgb::black(); 4];
    apply_stack(&mut stack, 500, buffer.as_mut_slice(), &wave);

    // C fills the frame, then D blends white over it by one half.
    assert_eq!(buffer, vec![Rgb::new(32640, 32640, FULL); 4]);

    // A and B are as they were: B never rendered into its scratch buffer.
    assert_eq!(stack[0], Effect::Solid(red()));
    assert_eq!(
        stack[1],
        Effect::SinePulse(SinePulseEffect::new_at(
            0,
            None,
            1000,
            0,
            FULL,
            boxed(Effect::Solid(green())),
        ))
    );
    assert_eq!(stack[2], Effect::Solid(blue()));
    match &stack[3] {
        Effect::FadeTransition(fade) => {
            let scratch = fade.wrapped.as_ref().unwrap();
            assert_eq!(scratch.buffer, vec![Rgb::white(); LED_COUNT]);
        }
        other => panic!("unexpected effect {:?}", other),
    }
}

#[test]
fn stack_without_an_opaque_effect_renders_all() {
    let wave = sine_table();
    let mut stack = vec![
        fade(0, 1000, FadeDirection::In, Effect::Solid(red())),
        fade(0, 1000, FadeDirection::In, Effect::Solid(green())),
    ];
    let mut buffer = vec![Rgb::black(); 2];
    apply_stack(&mut stack, 500, buffer.as_mut_slice(), &wave);
    // Black towards red by a half, then towards green by a half.
    assert_eq!(buffer, vec![Rgb::new(16320, 32640, 0); 2]);
}

#[test]
fn empty_stack_leaves_the_frame() {
    let wave = sine_table();
    let mut stack: Vec<Effect> = Vec::new();
    let mut buffer = vec![Rgb::new(1, 2, 3); 5];
    apply_stack(&mut stack, 0, buffer.as_mut_slice(), &wave);
    assert_eq!(buffer, vec![Rgb::new(1, 2, 3); 5]);
}

#[test]
fn solid_fills_the_frame() {
    let wave = sine_table();
    let mut solid = Effect::Solid(green());
    let mut buffer = vec![Rgb::black(); LED_COUNT];
    solid.apply_at(123, buffer.as_mut_slice(), &wave);
    assert_eq!(buffer, vec![green(); LED_COUNT]);
    assert_eq!(solid.update_at(456), None);
    assert_eq!(solid, Effect::Solid(green()));
    let mut other = vec![Rgb::black(); 3];
    fill(other.as_mut_slice(), blue());
    assert_eq!(other, vec![blue(); 3]);
}

#[test]
fn blend_into_blends_towards_black_without_a_wrapped_effect() {
    let mut buffer = vec![Rgb::white(); 3];
    blend_into(buffer.as_mut_slice(), &None, FULL / 4);
    assert_eq!(buffer, vec![Rgb::new(48960, 48960, 48960); 3]);
}

#[test]
fn linear_fade_in_goes_from_beneath_to_the_wrapped_effect() {
    let wave = sine_table();
    let beneath = Rgb::new(1000, 2000, 3000);

    let mut at_start = fade(10_000, 1000, FadeDirection::In, Effect::Solid(Rgb::white()));
    let mut buffer = vec![beneath; 3];
    at_start.apply_at(10_000, buffer.as_mut_slice(), &wave);
    assert_eq!(buffer, vec![beneath; 3]);

    let mut halfway = fade(10_000, 1000, FadeDirection::In, Effect::Solid(Rgb::white()));
    let mut buffer = vec![Rgb::black(); 3];
    halfway.apply_at(10_500, buffer.as_mut_slice(), &wave);
    assert_eq!(buffer, vec![Rgb::new(32640, 32640, 32640); 3]);

    let mut at_end = fade(10_000, 1000, FadeDirection::In, Effect::Solid(Rgb::white()));
    let mut buffer = vec![beneath; 3];
    at_end.apply_at(11_000, buffer.as_mut_slice(), &wave);
    assert_eq!(buffer, vec![Rgb::white(); 3]);
}

#[test]
fn fade_factors() {
    assert_eq!(fraction(0, 1000), 0);
    assert_eq!(fraction(500, 1000), 32640);
    assert_eq!(fraction(1000, 1000), FULL);
    assert_eq!(fraction(5000, 1000), FULL);
    assert_eq!(fraction(0, 0), FULL);
    assert_eq!(fraction(1, 3), 21760);
    assert_eq!(fraction(u64::MAX - 1, u64::MAX), 65279);

    assert_eq!(fade_level(FadeCurve::Linear, FadeDirection::In, 0, 1000), 0);
    assert_eq!(fade_level(FadeCurve::Linear, FadeDirection::In, 500, 1000), 32640);
    assert_eq!(fade_level(FadeCurve::Linear, FadeDirection::In, 1000, 1000), FULL);
    assert_eq!(fade_level(FadeCurve::Linear, FadeDirection::Out, 250, 1000), 48960);
    assert_eq!(fade_level(FadeCurve::Linear, FadeDirection::Out, 1000, 1000), 0);

    // A half cubed is an eighth.
    assert_eq!(fade_level(FadeCurve::EaseIn, FadeDirection::In, 500, 1000), 8160);
    assert_eq!(fade_level(FadeCurve::EaseOut, FadeDirection::In, 500, 1000), 57120);
    // Smoothstep of a quarter: 1/16 * (3 - 1/2) = 5/32.
    assert_eq!(fade_level(FadeCurve::Smoothstep, FadeDirection::In, 250, 1000), 10200);
    assert_eq!(fade_level(FadeCurve::Smoothstep, FadeDirection::In, 500, 1000), 32640);
    assert_eq!(fade_level(FadeCurve::Smoothstep, FadeDirection::Out, 250, 1000), 55080);
    for curve in [
        FadeCurve::Linear,
        FadeCurve::EaseIn,
        FadeCurve::EaseOut,
        FadeCurve::Smoothstep,
    ] {
        assert_eq!(fade_level(curve, FadeDirection::In, 0, 1000), 0);
        assert_eq!(fade_level(curve, FadeDirection::In, 1000, 1000), FULL);
        assert_eq!(fade_level(curve, FadeDirection::Out, 0, 1000), FULL);
        assert_eq!(fade_level(curve, FadeDirection::Out, 2000, 1000), 0);
    }
}

#[test]
fn curves_and_directions_limit_their_argument() {
    assert_eq!(FadeCurve::Linear.apply(-7), 0);
    assert_eq!(FadeCurve::Linear.apply(FULL + 7), FULL);
    assert_eq!(FadeCurve::EaseIn.apply(i32::MAX), FULL);
    assert_eq!(FadeCurve::EaseOut.apply(i32::MIN), 0);
    assert_eq!(FadeCurve::Smoothstep.apply(FULL + 1), FULL);
    assert_eq!(FadeDirection::In.apply(100), 100);
    assert_eq!(FadeDirection::Out.apply(100), FULL - 100);
    assert_eq!(FadeDirection::Out.apply(-100), FULL);
    assert_eq!(FadeDirection::In.apply(FULL + 100), FULL);
}

#[test]
fn fade_out_is_removed_at_its_duration_and_not_before() {
    let mut early = fade(1_000, 1_500_000, FadeDirection::Out, Effect::Solid(red()));
    assert_eq!(early.update_at(1_000), None);
    assert_eq!(early.update_at(1_000 + 1_499_999), None);
    assert_eq!(early.update_at(1_000 + 1_500_000), Some(EffectEvent::Remove));

    let mut late = fade(1_000, 1_500_000, FadeDirection::Out, Effect::Solid(red()));
    assert_eq!(late.update_at(9_000_000), Some(EffectEvent::Remove));

    let mut before_start = fade(1_000, 10, FadeDirection::Out, Effect::Solid(red()));
    assert_eq!(before_start.update_at(0), None);
}

#[test]
fn fade_in_hands_over_to_what_it_wrapped() {
    let mut fade_in = fade(0, 1000, FadeDirection::In, Effect::Solid(green()));
    assert_eq!(fade_in.update_at(999), None);
    assert_eq!(
        fade_in.update_at(1000),
        Some(EffectEvent::Replace(Box::new(Effect::Solid(green()))))
    );
    match &fade_in {
        Effect::FadeTransition(fade) => assert!(fade.wrapped.is_none()),
        other => panic!("unexpected effect {:?}", other),
    }
}

#[test]
fn fade_without_a_wrapped_effect_is_removed_at_its_end() {
    let mut empty = Effect::FadeTransition(FadeTransitionEffect::new_at(
        0,
        None,
        10,
        FadeCurve::Linear,
        FadeDirection::In,
        None,
    ));
    assert_eq!(empty.update_at(9), None);
    assert_eq!(empty.update_at(10), Some(EffectEvent::Remove));
}

#[test]
fn fade_goes_on_when_what_it_wraps_is_done() {
    // The inner fade-out ends at 100, the outer fade-in at 1000.
    let inner = fade(0, 100, FadeDirection::Out, Effect::Solid(red()));
    let mut outer = fade(0, 1000, FadeDirection::In, inner);
    assert_eq!(outer.update_at(100), None);
    match &outer {
        Effect::FadeTransition(fade) => assert!(fade.wrapped.is_none()),
        other => panic!("unexpected effect {:?}", other),
    }
    assert_eq!(outer.update_at(1000), Some(EffectEvent::Remove));
}

#[test]
fn fade_replaces_what_it_wraps_in_place() {
    let inner = fade(0, 100, FadeDirection::In, Effect::Solid(red()));
    let mut outer = fade(0, 1000, FadeDirection::In, inner);
    assert_eq!(outer.update_at(100), None);
    match &outer {
        Effect::FadeTransition(fade) => {
            assert_eq!(*fade.wrapped.as_ref().unwrap().effect, Effect::Solid(red()));
        }
        other => panic!("unexpected effect {:?}", other),
    }
}

#[test]
fn pulse_is_removed_with_what_it_wraps() {
    let inner = fade(0, 100, FadeDirection::Out, Effect::Solid(red()));
    let mut pulse = Effect::SinePulse(SinePulseEffect::new_at(0, None, 1000, 1, 2, boxed(inner)));
    assert_eq!(pulse.update_at(99), None);
    assert_eq!(pulse.update_at(100), Some(EffectEvent::Remove));
}

#[test]
fn pulse_start_moves_on_by_whole_periods() {
    let mut pulse = SinePulseEffect::new_at(100, None, 1000, 1, 2, None);
    assert_eq!(pulse.update_at(1099), None);
    assert_eq!(pulse.start, 100);
    assert_eq!(pulse.update_at(1100), None);
    assert_eq!(pulse.start, 1100);
    assert_eq!(pulse.update_at(1500), None);
    assert_eq!(pulse.start, 1100);
    // A late update does not move the wave: the start stays on the grid.
    assert_eq!(pulse.update_at(3650), None);
    assert_eq!(pulse.start, 3100);
    // Neither does an update before the start.
    let mut early = SinePulseEffect::new_at(100, None, 1000, 1, 2, None);
    assert_eq!(early.update_at(5), None);
    assert_eq!(early.start, 100);
    let mut still = SinePulseEffect::new_at(100, None, 0, 1, 2, None);
    assert_eq!(still.update_at(5_000), None);
    assert_eq!(still.start, 100);
    assert_eq!(restart(0, 1000, 1500), 1000);
    assert_eq!(restart(7, 10, u64::MAX), u64::MAX - 8);
}

#[test]
fn late_update_leaves_the_phase_of_the_pulse() {
    let wave = sine_table();
    // Period 1000 from 0: at 1600 the wave is at 600 of 1000, place 153 of 256.
    let expected = pulse_level(30000, 32640, 600, 1000, &wave);
    assert_eq!(phase(600, 1000), 153);
    assert_ne!(expected, pulse_level(30000, 32640, 100, 1000, &wave));
    let mut updated = Effect::SinePulse(SinePulseEffect::new_at(0, None, 1000, 30000, 32640, None));
    assert_eq!(updated.update_at(1500), None);
    let mut untouched =
        Effect::SinePulse(SinePulseEffect::new_at(0, None, 1000, 30000, 32640, None));
    let mut first = vec![Rgb::white(); 2];
    let mut second = vec![Rgb::white(); 2];
    updated.apply_at(1600, first.as_mut_slice(), &wave);
    untouched.apply_at(1600, second.as_mut_slice(), &wave);
    assert_eq!(first, second);
    assert_eq!(first, vec![Rgb::white().lerp(Rgb::black(), expected); 2]);
}

#[test]
fn pulse_repeats_itself() {
    let wave = sine_table();
    for t in [0u64, 1, 249, 250, 600, 999] {
        let a = pulse_level(30000, 32640, t, 1000, &wave);
        for k in 1u64..5 {
            assert_eq!(pulse_level(30000, 32640, t + k * 1000, 1000, &wave), a);
        }
    }
    // Whole periods of an odd period cross zero as well.
    assert_eq!(pulse_level(4896, 55488, 3 * 999, 999, &wave), 55488);
}

#[test]
fn effect_without_a_wrapped_one_takes_a_frame_of_any_length() {
    let wave = sine_table();
    let mut stack = vec![
        Effect::Solid(red()),
        Effect::SinePulse(SinePulseEffect::new_at(0, None, 1000, 0, 32640, None)),
    ];
    let mut frame = vec![Rgb::white(); LED_COUNT + 50];
    apply_stack(&mut stack, 0, frame.as_mut_slice(), &wave);
    assert_eq!(frame, vec![Rgb::new(32640, 0, 0); LED_COUNT + 50]);
}

#[test]
fn pulse_level_stays_within_its_amplitude_of_its_offset() {
    let wave = sine_table();
    let period: u64 = 5_000_000;
    let mut lowest = i32::MAX;
    let mut highest = i32::MIN;
    let mut t: u64 = 0;
    while t <= 2 * period {
        let a = pulse_level(4896, 55488, t, period, &wave);
        assert!((50592..=60384).contains(&a), "level {} at {}", a, t);
        lowest = lowest.min(a);
        highest = highest.max(a);
        t += 9_973;
    }
    assert_eq!(lowest, 50592);
    assert_eq!(highest, 60384);
    assert_eq!(pulse_level(4896, 55488, 0, period, &wave), 55488);
    assert_eq!(pulse_level(4896, 55488, period / 2, period, &wave), 55488);
    assert_eq!(pulse_level(4896, 55488, period, period, &wave), 55488);
    assert_eq!(pulse_level(4896, 55488, 3 * period / 2, period, &wave), 55488);
    assert_eq!(pulse_level(4896, 55488, period / 4, period, &wave), 60384);
    assert_eq!(pulse_level(4896, 55488, 3 * period / 4, period, &wave), 50592);
}

#[test]
fn pulse_level_is_limited_to_the_unit_range() {
    let wave = sine_table();
    assert_eq!(pulse_level(FULL, FULL, 250, 1000, &wave), FULL);
    assert_eq!(pulse_level(FULL, 0, 750, 1000, &wave), 0);
    assert_eq!(pulse_level(i32::MAX, i32::MAX, 250, 1000, &wave), FULL);
    assert_eq!(pulse_level(i32::MAX, i32::MIN, 750, 1000, &wave), 0);
    assert_eq!(pulse_level(32640, 32640, 0, 0, &wave), 32640);
}

#[test]
fn phase_walks_through_the_table() {
    assert_eq!(phase(0, 1000), 0);
    assert_eq!(phase(250, 1000), 64);
    assert_eq!(phase(999, 1000), 255);
    assert_eq!(phase(1000, 1000), 0);
    assert_eq!(phase(1500, 1000), 128);
    assert_eq!(phase(7, 0), 0);
    assert_eq!(phase(u64::MAX, u64::MAX), 0);
    assert_eq!(phase(u64::MAX - 1, u64::MAX), 255);
}

#[test]
fn pulse_blends_towards_what_it_wraps() {
    let wave = sine_table();
    // At a quarter of the period the wave is at its top: 0.5 + 0.5 * 1.
    let mut pulse = Effect::SinePulse(SinePulseEffect::new_at(
        0,
        None,
        1000,
        32640,
        32640,
        boxed(Effect::Solid(red())),
    ));
    let mut buffer = vec![Rgb::new(0, FULL, FULL); 2];
    pulse.apply_at(250, buffer.as_mut_slice(), &wave);
    assert_eq!(buffer, vec![red(); 2]);
    // At three quarters it is at its bottom: 0.5 - 0.5 * 1.
    let mut buffer = vec![Rgb::new(0, FULL, FULL); 2];
    pulse.apply_at(750, buffer.as_mut_slice(), &wave);
    assert_eq!(buffer, vec![Rgb::new(0, FULL, FULL); 2]);
    // At the start it is in the middle.
    let mut buffer = vec![Rgb::new(0, FULL, FULL); 2];
    pulse.apply_at(0, buffer.as_mut_slice(), &wave);
    assert_eq!(buffer, vec![Rgb::new(32640, 32640, 32640); 2]);
}

#[test]
fn update_replaces_in_place_and_removes_in_order() {
    let mut stack = vec![
        Effect::Solid(red()),
        fade(0, 100, FadeDirection::Out, Effect::Solid(green())),
        fade(0, 100, FadeDirection::In, Effect::Solid(blue())),
        fade(0, 500, FadeDirection::Out, Effect::Solid(green())),
        fade(0, 100, FadeDirection::Out, Effect::Solid(green())),
        Effect::Solid(Rgb::white()),
    ];
    update_stack(&mut stack, 100);
    assert_eq!(
        stack,
        vec![
            Effect::Solid(red()),
            Effect::Solid(blue()),
            fade(0, 500, FadeDirection::Out, Effect::Solid(green())),
            Effect::Solid(Rgb::white()),
        ]
    );
    update_stack(&mut stack, 500);
    assert_eq!(
        stack,
        vec![
            Effect::Solid(red()),
            Effect::Solid(blue()),
            Effect::Solid(Rgb::white()),
        ]
    );
}

#[test]
fn bundle_updates_its_members_and_hands_back_nothing() {
    let mut bundle = Effect::Bundle(vec![
        fade(0, 100, FadeDirection::Out, Effect::Solid(green())),
        fade(0, 100, FadeDirection::Out, Effect::Solid(green())),
    ]);
    assert_eq!(bundle.update_at(100), None);
    assert_eq!(bundle, Effect::Bundle(Vec::new()));
}

#[test]
fn nested_effects_render_through_their_scratch_buffers() {
    let wave = sine_table();
    // A fade-in, halfway, around cyan under a pulse to red at its top.
    let visual = Effect::Bundle(vec![
        Effect::Solid(Rgb::new(0, FULL, FULL)),
        Effect::SinePulse(SinePulseEffect::new_at(
            0,
            None,
            1000,
            32640,
            32640,
            boxed(Effect::Solid(red())),
        )),
    ]);
    let mut fade_in = fade(0, 500, FadeDirection::In, visual);
    let mut buffer = vec![Rgb::black(); LED_COUNT];
    fade_in.apply_at(250, buffer.as_mut_slice(), &wave);
    assert_eq!(buffer, vec![Rgb::new(32640, 0, 0); LED_COUNT]);
}

#[test]
fn effects_read_the_clock() {
    let wave = sine_table();
    // A fade of no duration is over whatever the clock says.
    let mut done = Effect::FadeTransition(FadeTransitionEffect::new(
        None,
        0,
        FadeCurve::Linear,
        FadeDirection::Out,
        boxed(Effect::Solid(red())),
    ));
    assert_eq!(done.update(0), Some(EffectEvent::Remove));

    // A fade of an hour has hardly begun.
    let mut long = FadeTransitionEffect::new(
        None,
        3_600_000_000,
        FadeCurve::Linear,
        FadeDirection::Out,
        boxed(Effect::Solid(red())),
    );
    assert_eq!(long.update(0), None);
    let mut buffer = vec![Rgb::black(); 2];
    long.apply(buffer.as_mut_slice(), &wave);
    assert!(buffer[0].r > FULL - 100 && buffer[0].g == 0);

    let mut pulse = SinePulseEffect::new(None, 0, 0, FULL, None);
    assert_eq!(pulse.update(0), None);
    let mut buffer = vec![Rgb::white(); 2];
    pulse.apply(buffer.as_mut_slice(), &wave);
    assert_eq!(buffer, vec![Rgb::black(); 2]);

    let mut solid = Effect::Solid(green());
    let mut buffer = vec![Rgb::black(); 2];
    solid.apply(buffer.as_mut_slice(), &wave);
    assert_eq!(buffer, vec![green(); 2]);
}

#[test]
fn effects_from_the_constructors_are_well_formed() {
    let visual = Effect::Bundle(vec![
        Effect::Solid(red()),
        Effect::SinePulse(SinePulseEffect::new_at(0, None, 9, 1, 2, boxed(Effect::Solid(green())))),
    ]);
    let fade_in = fade(0, 10, FadeDirection::In, visual);
    assert!(fade_in.well_formed());
    assert!(stack_well_formed(&vec![fade_in, Effect::Solid(blue())]));
    assert!(stack_well_formed(&Vec::new()));
    assert!(wrapped_well_formed(&None));
}

#[test]
fn short_scratch_buffer_is_not_well_formed() {
    let short = EffectBuffer::new(Box::new(Effect::Solid(red())), LED_COUNT - 1);
    assert!(!wrapped_well_formed(&Some(short)));
    let mut pulse = SinePulseEffect::new_at(0, None, 9, 1, 2, None);
    pulse.wrapped = Some(EffectBuffer::new(Box::new(Effect::Solid(red())), 3));
    let nested = Effect::Bundle(vec![Effect::Solid(red()), Effect::SinePulse(pulse)]);
    assert!(!nested.well_formed());
    assert!(!stack_well_formed(&vec![Effect::Solid(blue()), nested]));
}
