use dots_wallpaper::color::{color_field_op, color_from_value, linear_color_map, Color, VSCALE};
use dots_wallpaper::palette::{gradient_segment, FieldOp, GradColor};
use dots_wallpaper::prob::{Prob, DEN};
use rand::{Rng, SeedableRng};

fn prob(n: u64) -> Prob {
    Prob::new(n).unwrap()
}

/// The interpolation formula recomputed independently in wide integers:
/// channels in tenths, `t` scaled by `VSCALE`, saturated to a byte.
fn reference_channel(t: i64, c1: u8, c2: u8) -> u8 {
    let num: i128 = ((t as i128) * ((c2 as i128) - (c1 as i128)) + (c1 as i128) * 1_000_000) * 255;
    if num < 0 {
        0
    } else {
        let v: i128 = num / 10_000_000;
        if v > 255 {
            255
        } else {
            v as u8
        }
    }
}

#[test]
fn interpolation_at_zero_gives_first_color() {
    // Gradient segment zero runs from (0.2, 0.0, 1.0) to (1.0, 0.0, 0.6).
    let c = color_from_value(&prob(0), 0);
    assert_eq!(c, Color { r: 51, g: 0, b: 255 });
}

#[test]
fn interpolation_at_one_gives_second_color() {
    let c = color_from_value(&prob(0), VSCALE);
    assert_eq!(c, Color { r: 255, g: 0, b: 153 });
}

#[test]
fn interpolation_midpoint_is_exact() {
    let (c1, c2) = gradient_segment(0);
    let c = linear_color_map(VSCALE / 2, c1, c2);
    // Halfway: red 0.6, green 0.0, blue 0.8 on the byte scale.
    assert_eq!(c, Color { r: 153, g: 0, b: 204 });
}

#[test]
fn field_value_above_one_saturates() {
    let c = color_from_value(&prob(0), 2 * VSCALE);
    assert_eq!(c, Color { r: 255, g: 0, b: 51 });
}

#[test]
fn negative_field_value_saturates_at_zero() {
    let c = color_from_value(&prob(0), -VSCALE);
    assert_eq!(c, Color { r: 0, g: 0, b: 255 });
}

#[test]
fn field_function_selection_buckets_the_seed() {
    assert_eq!(color_field_op(&prob(0)), FieldOp::Radial);
    assert_eq!(color_field_op(&prob(142_857_143)), FieldOp::Saddle);
    assert_eq!(color_field_op(&prob(500_000_000)), FieldOp::SinGrid);
    assert_eq!(color_field_op(&prob(642_857_143)), FieldOp::Mean);
    assert_eq!(color_field_op(&prob(DEN - 1)), FieldOp::CosStripes);
}

#[test]
fn gradient_choice_follows_fractional_part() {
    // Seed 0.5: scaled by nine its fractional part is 0.5, which lands in
    // the fifth of the nine gradient segments, from (0.1, 0.5, 1.0) to
    // (0.4, 0.4, 0.4).
    let c = color_from_value(&prob(500_000_000), 0);
    assert_eq!(c, Color { r: 25, g: 127, b: 255 });
    // Seed 0.1: scaled by nine its fractional part is 0.9, which lands in
    // the last segment, from (1.0, 1.0, 0.3) to (1.0, 0.0, 0.4).
    let c = color_from_value(&prob(100_000_000), 0);
    assert_eq!(c, Color { r: 255, g: 255, b: 76 });
}

#[test]
fn endpoints_beyond_ten_tenths_saturate() {
    // The interpolation accepts endpoint channels beyond ten tenths and
    // saturates them the way the byte cast would: twenty tenths is clamped
    // to full intensity, and a downhill slope from there still interpolates.
    let high = GradColor { r: 20, g: 0, b: 5 };
    let low = GradColor { r: 0, g: 0, b: 5 };
    let c = linear_color_map(0, high, low);
    assert_eq!(c, Color { r: 255, g: 0, b: 127 });
    let c = linear_color_map(500_000, high, low);
    assert_eq!(c, Color { r: 255, g: 0, b: 127 });
    let c = linear_color_map(1_000_000, high, low);
    assert_eq!(c, Color { r: 0, g: 0, b: 127 });
}

#[test]
fn channels_match_reference_over_random_trials() {
    let mut rng = rand::rngs::StdRng::seed_from_u64(0xc010);
    for _ in 0..100_000 {
        let n: u64 = rng.random_range(0..DEN);
        let t: i64 = rng.random_range(-3_000_000..3_000_000);
        let p = prob(n);
        let fract9: u64 = n * 9 % DEN;
        let seg: u64 = fract9 * 9 / DEN;
        let (c1, c2): (GradColor, GradColor) = gradient_segment(seg);
        let c = color_from_value(&p, t);
        assert_eq!(c.r, reference_channel(t, c1.r, c2.r));
        assert_eq!(c.g, reference_channel(t, c1.g, c2.g));
        assert_eq!(c.b, reference_channel(t, c1.b, c2.b));
    }
}
