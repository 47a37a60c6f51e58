//! The frame pipeline: colour correction and bit-pulse encoding.

use vstd::prelude::*;

use crate::effect::model::{members_applied, members_updated, render_start};
use crate::effect::sine_pulse::SineTable;
use crate::effect::{apply_stack, fill, stack_model, stack_wf, update_stack, Effect};
use crate::render::rgb::{byte_pulses, clamp_unit, quantize, scale, FULL};
use crate::state::{State, StateModel};
use crate::time::now;

pub use self::rgb::Rgb;

pub mod async_transmit;
pub mod rgb;

verus! {

/// Number of pixels on the strip.
pub const LED_COUNT: usize = 200;

/// Pulse symbol for a one bit: high for 64 ticks, then low for 36, at 80 MHz.
pub const ONE: u32 = 2392128;

/// Pulse symbol for a zero bit: high for 36 ticks, then low for 64, at 80 MHz.
pub const ZERO: u32 = 4227108;

/// A channel after gamma correction, which squares it, and colour
/// correction, which multiplies it by the channel of `correction`.
pub open spec fn corrected(value: i32, correction: i32) -> int {
    scale(scale(value as int, value as int), correction as int)
}

/// The 24 pulse symbols of a pixel after gamma and colour correction:
/// green, red, blue, each byte most significant bit first.
pub open spec fn pixel_code(pixel: Rgb, correction: Rgb) -> Seq<u32> {
    byte_pulses(quantize(corrected(pixel.g, correction.g))) + byte_pulses(
        quantize(corrected(pixel.r, correction.r)),
    ) + byte_pulses(quantize(corrected(pixel.b, correction.b)))
}

/// The pulse symbols of a whole frame, pixel after pixel.
pub open spec fn frame_pulses(pixels: Seq<Rgb>, correction: Rgb) -> Seq<u32> {
    Seq::new(24 * pixels.len(), |k: int| pixel_code(pixels[k / 24], correction)[k % 24])
}

/// A channel after gamma and colour correction, limited to the range from
/// zero to `FULL`.
fn correct_channel(value: i32, correction: i32) -> (out: i32)
    ensures
        out == clamp_unit(corrected(value, correction)),
{
    assert(0 <= value * value <= 0x4000_0000_0000_0000) by (nonlinear_arith)
        requires
            -0x8000_0000 <= value <= 0x7fff_ffff,
    ;
    let squared: i128 = (value as i128 * value as i128) / 65280;
    assert(-0x8000_0000_0000 * 0x8000_0000 <= squared * correction <= 0x8000_0000_0000
        * 0x8000_0000) by (nonlinear_arith)
        requires
            0 <= squared <= 0x8000_0000_0000,
            -0x8000_0000 <= correction <= 0x7fff_ffff,
    ;
    let product: i128 = squared * correction as i128;
    if product < 0 {
        0
    } else {
        let scaled: i128 = product / 65280;
        if scaled > FULL as i128 {
            FULL
        } else {
            scaled as i32
        }
    }
}

/// Encodes the pixels of a frame as pulse symbols, after gamma and
/// colour correction. What lies behind the symbols of the last pixel in
/// `pulse_buffer` stays as it was.
pub fn write_pulses(render_buffer: &[Rgb], pulse_buffer: &mut [u32], color_correction: Rgb)
    requires
        old(pulse_buffer).len() >= 24 * render_buffer.len(),
    ensures
        final(pulse_buffer)@ == frame_pulses(render_buffer@, color_correction) + old(
            pulse_buffer,
        )@.subrange(24 * render_buffer.len(), old(pulse_buffer).len() as int),
{
    let n: usize = render_buffer.len();
    let ghost before = pulse_buffer@;
    let ghost target = frame_pulses(render_buffer@, color_correction);
    let mut i: usize = 0;
    while i < n
        invariant
            i <= n,
            n == render_buffer.len(),
            before.len() >= 24 * n,
            pulse_buffer.len() == before.len(),
            target == frame_pulses(render_buffer@, color_correction),
            forall|k: int| 0 <= k < 24 * i ==> pulse_buffer@[k] == target[k],
            forall|k: int| 24 * i <= k < before.len() ==> pulse_buffer@[k] == before[k],
        decreases n - i,
    {
        let pixel: Rgb = render_buffer[i];
        let code = Rgb {
            r: correct_channel(pixel.r, color_correction.r),
            g: correct_channel(pixel.g, color_correction.g),
            b: correct_channel(pixel.b, color_correction.b),
        };
        assert(code.pulses() =~= pixel_code(pixel, color_correction));
        let ghost current = pulse_buffer@;
        let (_, rest) = pulse_buffer.split_at_mut(i * 24);
        let (symbols, _) = rest.split_at_mut(24);
        code.write_pulses(symbols);
        assert forall|k: int| 0 <= k < before.len() implies pulse_buffer@[k] == if 24 * i <= k < 24
            * i + 24 {
            code.pulses()[k - 24 * i]
        } else {
            current[k]
        } by {}
        assert forall|k: int| 24 * i <= k < 24 * i + 24 implies pulse_buffer@[k] == target[k] by {
            assert(k / 24 == i as int);
            assert(k % 24 == k - 24 * i);
        }
        i += 1;
    }
    assert(pulse_buffer@ =~= target + before.subrange(24 * n, before.len() as int));
}

/// A pulse buffer for a whole strip: a zero symbol for every bit, and the
/// terminator, a symbol of no length, at the end.
pub fn pulse_frame() -> (pulses: Vec<u32>)
    ensures
        pulses.len() == 24 * LED_COUNT + 1,
        forall|k: int| 0 <= k < 24 * LED_COUNT ==> pulses@[k] == ZERO,
        pulses@[24 * LED_COUNT as int] == 0,
{
    let mut pulses: Vec<u32> = vec![ZERO; 24 * LED_COUNT + 1];
    pulses[24 * LED_COUNT] = 0;
    pulses
}

/// The effects and the pixels of a frame at the time `now`: the effects
/// of `stack` are brought up to date, then rendered onto a black frame of
/// `width` pixels.
pub open spec fn frame(stack: Seq<crate::effect::model::EffectModel>, now: u64, width: nat, wave: Seq<i32>)
    -> (Seq<crate::effect::model::EffectModel>, Seq<Rgb>) {
    let live = members_updated(stack, stack.len(), now);
    members_applied(
        live,
        render_start(live, live.len()),
        live.len(),
        now,
        Seq::new(width, |i: int| Rgb::black()),
        wave,
    )
}

/// Computes one frame at the time `now`: clears the frame to black, brings
/// the effects up to date, renders them, and encodes the pixels as
/// pulse symbols.
pub fn render_frame(
    stack: &mut Vec<Effect>,
    now: u64,
    render_buffer: &mut [Rgb],
    pulse_buffer: &mut [u32],
    wave: &SineTable,
    color_correction: Rgb,
)
    requires
        stack_wf(*old(stack)),
        old(render_buffer).len() <= LED_COUNT,
        old(pulse_buffer).len() >= 24 * old(render_buffer).len(),
    ensures
        (stack_model(*final(stack)), final(render_buffer)@) == frame(
            stack_model(*old(stack)),
            now,
            old(render_buffer).len() as nat,
            wave@,
        ),
        final(pulse_buffer)@ == frame_pulses(final(render_buffer)@, color_correction) + old(
            pulse_buffer,
        )@.subrange(24 * old(render_buffer).len(), old(pulse_buffer).len() as int),
        stack_wf(*final(stack)),
{
    fill(render_buffer, Rgb::black());
    update_stack(stack, now);
    proof {
        let live = stack_model(*stack);
        assert forall|i: int| 0 <= i < live.len() implies (#[trigger] live[i]).fits(
            render_buffer.len() as nat,
        ) by {
            crate::effect::model::lemma_wf_fits(live[i], render_buffer.len() as nat);
        }
    }
    apply_stack(stack, now, render_buffer, wave);
    write_pulses(render_buffer, pulse_buffer, color_correction);
}

/// One turn of the renderer: computes the frame of the present time, by
/// the clock, from the effect stack of the shared state, without colour
/// correction beyond gamma. The pulse symbols are then ready to be sent.
pub fn renderer(
    state: &mut State,
    render_buffer: &mut [Rgb],
    pulse_buffer: &mut [u32],
    wave: &SineTable,
)
    requires
        stack_wf(old(state).effect_stack),
        old(render_buffer).len() <= LED_COUNT,
        old(pulse_buffer).len() >= 24 * old(render_buffer).len(),
    ensures
        exists|now: u64|
            (final(state)@.effect_stack, final(render_buffer)@) == #[trigger] frame(
                old(state)@.effect_stack,
                now,
                old(render_buffer).len() as nat,
                wave@,
            ),
        final(state)@ == (StateModel { effect_stack: final(state)@.effect_stack, ..old(state)@ }),
        final(pulse_buffer)@ == frame_pulses(final(render_buffer)@, Rgb::white()) + old(
            pulse_buffer,
        )@.subrange(24 * old(render_buffer).len(), old(pulse_buffer).len() as int),
        stack_wf(final(state).effect_stack),
{
    let at: u64 = now();
    let ghost stack = state@.effect_stack;
    let ghost width = render_buffer.len() as nat;
    render_frame(&mut state.effect_stack, at, render_buffer, pulse_buffer, wave, Rgb::white());
    assert((state@.effect_stack, render_buffer@) == frame(stack, at, width, wave@));
}

} // verus!
