use firmware::render::rgb::{Rgb, FULL};
use firmware::render::{ONE, ZERO};

#[test]
fn from_u8_round_trips_through_quantize() {
    let c = Rgb::from_u8(12, 200, 255);
    assert_eq!(c.quantize_u8(), (12, 200, 255));
    assert_eq!(c, Rgb::new(12 * 256, 200 * 256, FULL));
}

#[test]
fn black_and_white_are_the_ends_of_the_scale() {
    assert_eq!(Rgb::black(), Rgb::new(0, 0, 0));
    assert_eq!(Rgb::white(), Rgb::new(65280, 65280, 65280));
    assert_eq!(Rgb::white(), Rgb::from_u8(255, 255, 255));
}

#[test]
fn lerp_by_a_quarter() {
    let from = Rgb::new(100, 200, 300);
    let to = Rgb::new(1100, 1200, 1300);
    assert_eq!(from.lerp(to, FULL / 4), Rgb::new(350, 450, 550));
}

#[test]
fn lerp_by_half_between_black_and_white() {
    assert_eq!(
        Rgb::black().lerp(Rgb::white(), 32640),
        Rgb::new(32640, 32640, 32640)
    );
}

#[test]
fn lerp_ends_are_exact() {
    let from = Rgb::new(17, -40, 65000);
    let to = Rgb::new(-3, 999, 12);
    assert_eq!(from.lerp(to, 0), from);
    assert_eq!(from.lerp(to, FULL), to);
}

#[test]
fn lerp_limits_the_factor() {
    let from = Rgb::new(10, 20, 30);
    let to = Rgb::new(1000, 2000, 3000);
    assert_eq!(from.lerp(to, -5), from);
    assert_eq!(from.lerp(to, FULL + 100), to);
    assert_eq!(from.lerp(to, i32::MAX), to);
    assert_eq!(from.lerp(to, i32::MIN), from);
}

#[test]
fn lerp_rounds_down_below_zero() {
    let from = Rgb::new(-1, -1, -1);
    let to = Rgb::new(0, 0, 0);
    assert_eq!(from.lerp(to, 1), Rgb::new(-1, -1, -1));
}

#[test]
fn lerp_of_extreme_channels_does_not_overflow() {
    let from = Rgb::new(i32::MIN, i32::MAX, 0);
    let to = Rgb::new(i32::MAX, i32::MIN, 0);
    let mid = from.lerp(to, FULL / 2);
    assert_eq!(mid, Rgb::new(-1, -1, 0));
}

#[test]
fn clamp_limits_every_channel() {
    assert_eq!(Rgb::new(-5, 70000, 100).clamp(), Rgb::new(0, FULL, 100));
    assert_eq!(Rgb::new(0, FULL, 1).clamp(), Rgb::new(0, FULL, 1));
}

#[test]
fn quantize_saturates() {
    assert_eq!(Rgb::new(-1, 70000, FULL).quantize_u8(), (0, 255, 255));
    assert_eq!(Rgb::new(255, 256, 511).quantize_u8(), (0, 1, 1));
    assert_eq!(Rgb::new(32640, 65279, 0).quantize_u8(), (127, 254, 0));
}

#[test]
fn write_pulses_orders_green_red_blue_most_significant_bit_first() {
    let pixel = Rgb::from_u8(0b1000_0001, 0b0101_0101, 0xff);
    let mut pulses = vec![7u32; 25];
    pixel.write_pulses(pulses.as_mut_slice());
    let green = [ZERO, ONE, ZERO, ONE, ZERO, ONE, ZERO, ONE];
    let red = [ONE, ZERO, ZERO, ZERO, ZERO, ZERO, ZERO, ONE];
    let blue = [ONE; 8];
    assert_eq!(&pulses[0..8], &green);
    assert_eq!(&pulses[8..16], &red);
    assert_eq!(&pulses[16..24], &blue);
    assert_eq!(pulses[24], 7);
}

#[test]
fn pulse_symbols_have_their_values() {
    assert_eq!(ONE, 2392128);
    assert_eq!(ZERO, 4227108);
}
