//! Fixed-point colour values: every channel and every blend factor counts
//! in steps of `1 / FULL`, so `FULL` is full intensity and a factor of one.

use vstd::prelude::*;

use crate::render::{ONE, ZERO};

verus! {

/// Full intensity of a channel, and a blend factor of one.
pub const FULL: i32 = 65280;

/// `v` limited to the range from zero to `FULL`.
pub open spec fn clamp_unit(v: int) -> int {
    if v < 0 {
        0
    } else if v > FULL {
        FULL as int
    } else {
        v
    }
}

/// The channel that lies the fraction `a / FULL` of the way from `x` to `y`,
/// rounded down; `a` is first limited to the range from zero to `FULL`.
pub open spec fn mix(x: int, y: int, a: int) -> int {
    (x * (FULL - clamp_unit(a)) + y * clamp_unit(a)) / (FULL as int)
}

/// The product of two fixed-point values, rounded down.
pub open spec fn scale(x: int, y: int) -> int {
    (x * y) / (FULL as int)
}

/// The eight-bit value of a channel: `255 * v / FULL` rounded down, with
/// everything below zero taken as 0 and everything above `FULL` as 255.
pub open spec fn quantize(v: int) -> u8 {
    (clamp_unit(v) / 256) as u8
}

/// Whether bit `bit` of `value` is set, counted from the most significant.
pub open spec fn bit_set(value: u8, bit: u8) -> bool {
    value & (0x80u8 >> bit) != 0
}

/// The eight pulse symbols of one byte, most significant bit first.
pub open spec fn byte_pulses(value: u8) -> Seq<u32> {
    Seq::new(
        8,
        |i: int|
            if bit_set(value, i as u8) {
                ONE
            } else {
                ZERO
            },
    )
}

/// A colour with three fixed-point channels.
#[derive(Clone, Copy, Debug, PartialEq, Eq, Structural)]
pub struct Rgb {
    pub r: i32,
    pub g: i32,
    pub b: i32,
}

impl Rgb {
    pub open spec fn spec_black() -> Rgb {
        Rgb { r: 0, g: 0, b: 0 }
    }

    pub open spec fn spec_white() -> Rgb {
        Rgb { r: FULL, g: FULL, b: FULL }
    }

    /// No light at all.
    #[verifier::when_used_as_spec(spec_black)]
    pub fn black() -> (out: Rgb)
        ensures
            out == Rgb::spec_black(),
    {
        Rgb { r: 0, g: 0, b: 0 }
    }

    /// All three channels at full intensity.
    #[verifier::when_used_as_spec(spec_white)]
    pub fn white() -> (out: Rgb)
        ensures
            out == Rgb::spec_white(),
    {
        Rgb { r: FULL, g: FULL, b: FULL }
    }

    /// The blend of `self` and `other` by the factor `a`, channel by channel.
    pub open spec fn blend(self, other: Rgb, a: int) -> Rgb {
        Rgb {
            r: mix(self.r as int, other.r as int, a) as i32,
            g: mix(self.g as int, other.g as int, a) as i32,
            b: mix(self.b as int, other.b as int, a) as i32,
        }
    }

    /// Every channel limited to the range from zero to `FULL`.
    pub open spec fn clamped(self) -> Rgb {
        Rgb {
            r: clamp_unit(self.r as int) as i32,
            g: clamp_unit(self.g as int) as i32,
            b: clamp_unit(self.b as int) as i32,
        }
    }

    /// The eight-bit channels, in the order red, green, blue.
    pub open spec fn quantized(self) -> (u8, u8, u8) {
        (quantize(self.r as int), quantize(self.g as int), quantize(self.b as int))
    }

    /// The 24 pulse symbols of this pixel: green, red, blue, each byte most
    /// significant bit first.
    pub open spec fn pulses(self) -> Seq<u32> {
        byte_pulses(quantize(self.g as int)) + byte_pulses(quantize(self.r as int)) + byte_pulses(
            quantize(self.b as int),
        )
    }

    pub fn new(r: i32, g: i32, b: i32) -> (out: Self)
        ensures
            out == (Rgb { r, g, b }),
    {
        Rgb { r, g, b }
    }

    /// The colour whose eight-bit channels are `r`, `g` and `b`.
    pub fn from_u8(r: u8, g: u8, b: u8) -> (out: Self)
        ensures
            out.r == r * 256,
            out.g == g * 256,
            out.b == b * 256,
            out.quantized() == (r, g, b),
    {
        Rgb { r: r as i32 * 256, g: g as i32 * 256, b: b as i32 * 256 }
    }

    /// Moves every channel the fraction `a / FULL` of the way to `other`.
    pub fn lerp(&self, other: Self, a: i32) -> (out: Self)
        ensures
            out == self.blend(other, a as int),
    {
        Rgb {
            r: mix_channel(self.r, other.r, a),
            g: mix_channel(self.g, other.g, a),
            b: mix_channel(self.b, other.b, a),
        }
    }

    pub fn clamp(&self) -> (out: Self)
        ensures
            out == self.clamped(),
    {
        Rgb { r: clamp_channel(self.r), g: clamp_channel(self.g), b: clamp_channel(self.b) }
    }

    pub fn quantize_u8(&self) -> (out: (u8, u8, u8))
        ensures
            out == self.quantized(),
    {
        (quantize_channel(self.r), quantize_channel(self.g), quantize_channel(self.b))
    }

    /// Writes the 24 pulse symbols of this pixel to the front of `pulses`
    /// and leaves the rest as it was.
    pub fn write_pulses(&self, pulses: &mut [u32])
        requires
            old(pulses).len() >= 24,
        ensures
            final(pulses)@ == self.pulses() + old(pulses)@.subrange(24, old(pulses).len() as int),
    {
        let (r, g, b) = self.quantize_u8();
        let ghost before = pulses@;
        write_u8(g, pulses, 0);
        write_u8(r, pulses, 8);
        write_u8(b, pulses, 16);
        assert(pulses@ =~= self.pulses() + before.subrange(24, before.len() as int));
    }
}

fn clamp_channel(v: i32) -> (c: i32)
    ensures
        c == clamp_unit(v as int),
{
    if v < 0 {
        0
    } else if v > FULL {
        FULL
    } else {
        v
    }
}

fn quantize_channel(v: i32) -> (q: u8)
    ensures
        q == quantize(v as int),
{
    (clamp_channel(v) / 256) as u8
}

/// `n / FULL`, rounded down also where `n` is negative.
pub(crate) fn div_full(n: i64) -> (q: i64)
    requires
        n >= -0x7fff_ffff_0000_0000,
    ensures
        q == n as int / (FULL as int),
{
    if n >= 0 {
        n / 65280
    } else {
        -((65279 - n) / 65280)
    }
}

/// The two products of a blend stay between `lo * FULL` and `hi * FULL`.
proof fn lemma_mix_bounds(x: int, y: int, k: int, lo: int, hi: int)
    by (nonlinear_arith)
    requires
        0 <= k <= FULL,
        lo <= x <= hi,
        lo <= y <= hi,
    ensures
        lo * FULL <= x * (FULL - k) + y * k <= hi * FULL,
        lo * (FULL - k) <= x * (FULL - k) <= hi * (FULL - k),
        lo * k <= y * k <= hi * k,
{
}

fn mix_channel(x: i32, y: i32, a: i32) -> (m: i32)
    ensures
        m == mix(x as int, y as int, a as int),
{
    let k: i64 = clamp_channel(a) as i64;
    let lo: i32 = if x <= y { x } else { y };
    let hi: i32 = if x <= y { y } else { x };
    proof {
        lemma_mix_bounds(x as int, y as int, k as int, lo as int, hi as int);
        lemma_mix_bounds(x as int, y as int, k as int, -0x8000_0000, 0x7fff_ffff);
    }
    let n: i64 = x as i64 * (FULL as i64 - k) + y as i64 * k;
    div_full(n) as i32
}

/// Writes the pulse symbols of `value` to the eight places from `at` on.
fn write_u8(value: u8, buffer: &mut [u32], at: usize)
    requires
        at + 8 <= old(buffer).len(),
    ensures
        final(buffer).len() == old(buffer).len(),
        forall|i: int|
            0 <= i < old(buffer).len() ==> #[trigger] final(buffer)@[i] == if at <= i < at + 8 {
                byte_pulses(value)[i - at]
            } else {
                old(buffer)@[i]
            },
{
    let mut mask: u8 = 0x80;
    let mut i: usize = 0;
    assert(0x80u8 >> 0u8 == 0x80u8) by (bit_vector);
    while i < 8
        invariant
            i <= 8,
            at + 8 <= buffer.len(),
            buffer.len() == old(buffer).len(),
            mask == 0x80u8 >> (i as u8),
            forall|j: int|
                0 <= j < buffer.len() ==> #[trigger] buffer@[j] == if at <= j < at + i {
                    byte_pulses(value)[j - at]
                } else {
                    old(buffer)@[j]
                },
        decreases 8 - i,
    {
        if value & mask != 0 {
            buffer[at + i] = ONE;
        } else {
            buffer[at + i] = ZERO;
        }
        assert((0x80u8 >> (i as u8)) >> 1 == 0x80u8 >> ((i + 1) as u8)) by (bit_vector)
            requires
                i < 8,
        ;
        mask = mask >> 1;
        i += 1;
    }
}

/// A blend by the factor zero is the first channel, and a blend by the
/// factor one is the second.
pub proof fn lemma_mix_ends(x: int, y: int)
    ensures
        mix(x, y, 0) == x,
        mix(x, y, FULL as int) == y,
{
    assert((x * 65280) / 65280 == x) by (nonlinear_arith);
    assert((y * 65280) / 65280 == y) by (nonlinear_arith);
    assert(x * (65280 - 0) + y * 0 == x * 65280) by (nonlinear_arith);
    assert(x * (65280 - 65280) + y * 65280 == y * 65280) by (nonlinear_arith);
}

/// A blend lies between the two channels that it blends.
pub proof fn lemma_mix_between(x: int, y: int, a: int)
    ensures
        x <= y ==> x <= mix(x, y, a) <= y,
        y <= x ==> y <= mix(x, y, a) <= x,
{
    let k = clamp_unit(a);
    if x <= y {
        lemma_mix_bounds(x, y, k, x, y);
    } else {
        lemma_mix_bounds(x, y, k, y, x);
    }
}

} // verus!
