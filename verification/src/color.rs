use crate::palette::{field_op, field_op_spec, gradient_segment, gradient_spec, grad_color_wf, FieldOp, GradColor};
use crate::prob::{bucket_spec, fract_spec, Prob};
use vstd::prelude::*;

verus! {

/// Fixed-point scale for field values and coordinates: an `i64` value `v`
/// stands for the scalar `v / VSCALE`.
pub const VSCALE: i64 = 1_000_000;

/// An RGB pixel color, one byte per channel.
#[derive(Clone, Copy, PartialEq, Eq, Structural, Debug)]
pub struct Color {
    pub r: u8,
    pub g: u8,
    pub b: u8,
}

impl Color {
    /// The three channels as a tuple.
    pub open spec fn channels(self) -> (u8, u8, u8) {
        (self.r, self.g, self.b)
    }
}

/// The interpolation numerator of one channel: the channel of the first
/// color plus `t` times the channel difference, in units of
/// `1 / (10 * VSCALE * 255)` of full intensity. Channels are in tenths and
/// `t` is scaled by `VSCALE`.
pub open spec fn interp_num(t: int, c1: int, c2: int) -> int {
    (t * (c2 - c1) + c1 * (VSCALE as int)) * 255
}

/// One interpolated channel on the byte scale: the numerator divided down
/// to `[0, 255]`, saturating below at zero and above at 255 exactly as a
/// float-to-byte cast does.
pub open spec fn chan_spec(t: int, c1: int, c2: int) -> int {
    let num = interp_num(t, c1, c2);
    if num < 0 {
        0
    } else if num / (10 * (VSCALE as int)) > 255 {
        255
    } else {
        num / (10 * (VSCALE as int))
    }
}

/// Every interpolated channel is a byte: saturation keeps it in `[0, 255]`
/// even when the field value `t` drifts outside `[0, VSCALE]`.
pub proof fn lemma_chan_in_byte_range(t: int, c1: int, c2: int)
    ensures
        0 <= chan_spec(t, c1, c2) <= 255,
{
    let num = interp_num(t, c1, c2);
    if num >= 0 {
        vstd::arithmetic::div_mod::lemma_div_pos_is_pos(num, 10 * (VSCALE as int));
    }
}

/// Interpolates one channel between two gradient endpoints, channels in
/// tenths, `t` scaled by `VSCALE`; saturates to the byte range. Endpoint
/// channels beyond ten tenths are taken as they are and saturate the same
/// way.
fn interp_channel(t: i64, c1: u8, c2: u8) -> (r: u8)
    ensures
        r == chan_spec(t as int, c1 as int, c2 as int),
{
    let d: i128 = (c2 as i128) - (c1 as i128);
    proof {
        assert((t as int) * ((c2 as int) - (c1 as int)) <= 255 * 0x8000_0000_0000_0000
            && (t as int) * ((c2 as int) - (c1 as int)) >= -255 * 0x8000_0000_0000_0000) by (nonlinear_arith)
            requires
                -0x8000_0000_0000_0000 <= t as int <= 0x7fff_ffff_ffff_ffff,
                -255 <= (c2 as int) - (c1 as int) <= 255,
        ;
    }
    let num: i128 = ((t as i128) * d + (c1 as i128) * 1_000_000) * 255;
    if num < 0 {
        0
    } else {
        let v: u128 = (num as u128) / (10 * 1_000_000);
        if v > 255 {
            255
        } else {
            v as u8
        }
    }
}

/// The color interpolated between two gradient endpoints: each channel
/// independently, with `t` as the fraction scaled by `VSCALE`.
pub open spec fn linear_color_map_spec(t: int, c1: GradColor, c2: GradColor) -> Color {
    Color {
        r: chan_spec(t, c1.r as int, c2.r as int) as u8,
        g: chan_spec(t, c1.g as int, c2.g as int) as u8,
        b: chan_spec(t, c1.b as int, c2.b as int) as u8,
    }
}

/// Maps an interpolation fraction and two gradient endpoint colors to a
/// pixel color, channel by channel. At `t == 0` the result is the first
/// color on the byte scale, at `t == VSCALE` the second.
pub fn linear_color_map(t: i64, c1: GradColor, c2: GradColor) -> (r: Color)
    ensures
        r == linear_color_map_spec(t as int, c1, c2),
{
    proof {
        lemma_chan_in_byte_range(t as int, c1.r as int, c2.r as int);
        lemma_chan_in_byte_range(t as int, c1.g as int, c2.g as int);
        lemma_chan_in_byte_range(t as int, c1.b as int, c2.b as int);
    }
    Color {
        r: interp_channel(t, c1.r, c2.r),
        g: interp_channel(t, c1.g, c2.g),
        b: interp_channel(t, c1.b, c2.b),
    }
}

/// The field function that a color seed selects: the index of the seed's
/// bucket among seven equal buckets.
pub fn color_field_op(p: &Prob) -> (r: FieldOp)
    requires
        p.wf(),
    ensures
        r == field_op_spec(bucket_spec(p@, 7)),
{
    field_op(p.bucket(7))
}

/// The gradient segment that a color seed selects, channels in tenths: the
/// fractional part of the seed scaled by nine, bucketed among the nine
/// segments. The same seed drives both this choice and the field function
/// through two different bucketings, so the two are deliberately
/// correlated.
pub fn color_gradient(p: &Prob) -> (r: (GradColor, GradColor))
    requires
        p.wf(),
    ensures
        r == gradient_spec(bucket_spec(fract_spec(p@, 9), 9)),
        grad_color_wf(r.0),
        grad_color_wf(r.1),
{
    let f = p.fract(9);
    gradient_segment(f.bucket(9))
}

/// The color that a seed and a field value select: the seed picks the
/// gradient segment, the field value interpolates within it.
pub open spec fn color_from_value_spec(n: int, t: int) -> Color {
    let seg = gradient_spec(bucket_spec(fract_spec(n, 9), 9));
    linear_color_map_spec(t, seg.0, seg.1)
}

/// Maps a color seed and an already evaluated field value (scaled by
/// `VSCALE`) to the pixel color: gradient selection then interpolation.
pub fn color_from_value(p: &Prob, t: i64) -> (r: Color)
    requires
        p.wf(),
    ensures
        r == color_from_value_spec(p@, t as int),
{
    let seg = color_gradient(p);
    linear_color_map(t, seg.0, seg.1)
}

} // verus!
