use vstd::prelude::*;

verus! {

/// The six unary scalar transforms of the palette, in bucket order:
/// identity, negation, signed square, rounding to tenths, and the sine and
/// cosine of a quarter turn.
#[derive(Clone, Copy, PartialEq, Eq, Structural, Debug)]
pub enum UnaryOp {
    Identity,
    Negate,
    SquareSigned,
    RoundTenths,
    SinQuarter,
    CosQuarter,
}

/// The four binary scalar transforms of the palette, in bucket order:
/// sum, difference, reversed difference, and product with the magnitude of
/// the second argument.
#[derive(Clone, Copy, PartialEq, Eq, Structural, Debug)]
pub enum BinaryOp {
    Add,
    Sub,
    SubRev,
    MulAbs,
}

/// The seven field functions of the color mapper, in bucket order. Each
/// takes two coordinates rescaled to `[0, 1]` and yields a value nominally
/// in `[0, 1]` that drives the gradient interpolation.
#[derive(Clone, Copy, PartialEq, Eq, Structural, Debug)]
pub enum FieldOp {
    Radial,
    Saddle,
    Checker,
    SinGrid,
    Mean,
    SinStripes,
    CosStripes,
}

/// The unary transform selected by a bucket index.
pub open spec fn unary_op_spec(i: int) -> UnaryOp {
    if i == 0 {
        UnaryOp::Identity
    } else if i == 1 {
        UnaryOp::Negate
    } else if i == 2 {
        UnaryOp::SquareSigned
    } else if i == 3 {
        UnaryOp::RoundTenths
    } else if i == 4 {
        UnaryOp::SinQuarter
    } else {
        UnaryOp::CosQuarter
    }
}

/// The binary transform selected by a bucket index.
pub open spec fn binary_op_spec(i: int) -> BinaryOp {
    if i == 0 {
        BinaryOp::Add
    } else if i == 1 {
        BinaryOp::Sub
    } else if i == 2 {
        BinaryOp::SubRev
    } else {
        BinaryOp::MulAbs
    }
}

/// The field function selected by a bucket index.
pub open spec fn field_op_spec(i: int) -> FieldOp {
    if i == 0 {
        FieldOp::Radial
    } else if i == 1 {
        FieldOp::Saddle
    } else if i == 2 {
        FieldOp::Checker
    } else if i == 3 {
        FieldOp::SinGrid
    } else if i == 4 {
        FieldOp::Mean
    } else if i == 5 {
        FieldOp::SinStripes
    } else {
        FieldOp::CosStripes
    }
}

/// Looks up the unary transform for a bucket index.
pub fn unary_op(i: u64) -> (r: UnaryOp)
    requires
        i < 6,
    ensures
        r == unary_op_spec(i as int),
{
    if i == 0 {
        UnaryOp::Identity
    } else if i == 1 {
        UnaryOp::Negate
    } else if i == 2 {
        UnaryOp::SquareSigned
    } else if i == 3 {
        UnaryOp::RoundTenths
    } else if i == 4 {
        UnaryOp::SinQuarter
    } else {
        UnaryOp::CosQuarter
    }
}

/// Looks up the binary transform for a bucket index.
pub fn binary_op(i: u64) -> (r: BinaryOp)
    requires
        i < 4,
    ensures
        r == binary_op_spec(i as int),
{
    if i == 0 {
        BinaryOp::Add
    } else if i == 1 {
        BinaryOp::Sub
    } else if i == 2 {
        BinaryOp::SubRev
    } else {
        BinaryOp::MulAbs
    }
}

/// Looks up the field function for a bucket index.
pub fn field_op(i: u64) -> (r: FieldOp)
    requires
        i < 7,
    ensures
        r == field_op_spec(i as int),
{
    if i == 0 {
        FieldOp::Radial
    } else if i == 1 {
        FieldOp::Saddle
    } else if i == 2 {
        FieldOp::Checker
    } else if i == 3 {
        FieldOp::SinGrid
    } else if i == 4 {
        FieldOp::Mean
    } else if i == 5 {
        FieldOp::SinStripes
    } else {
        FieldOp::CosStripes
    }
}

/// One endpoint color of a gradient segment. Channels are held in tenths:
/// a channel value `t` stands for the intensity `t / 10` in `[0, 1]`.
#[derive(Clone, Copy, PartialEq, Eq, Structural, Debug)]
pub struct GradColor {
    pub r: u8,
    pub g: u8,
    pub b: u8,
}

/// The two endpoint colors of the gradient segment selected by a bucket
/// index, channels in tenths.
pub open spec fn gradient_spec(i: int) -> (GradColor, GradColor) {
    if i == 0 {
        (GradColor { r: 2, g: 0, b: 10 }, GradColor { r: 10, g: 0, b: 6 })
    } else if i == 1 {
        (GradColor { r: 4, g: 2, b: 10 }, GradColor { r: 10, g: 4, b: 4 })
    } else if i == 2 {
        (GradColor { r: 3, g: 2, b: 10 }, GradColor { r: 0, g: 10, b: 0 })
    } else if i == 3 {
        (GradColor { r: 1, g: 1, b: 6 }, GradColor { r: 2, g: 10, b: 8 })
    } else if i == 4 {
        (GradColor { r: 1, g: 5, b: 10 }, GradColor { r: 4, g: 4, b: 4 })
    } else if i == 5 {
        (GradColor { r: 0, g: 10, b: 10 }, GradColor { r: 10, g: 2, b: 10 })
    } else if i == 6 {
        (GradColor { r: 7, g: 0, b: 10 }, GradColor { r: 10, g: 3, b: 1 })
    } else if i == 7 {
        (GradColor { r: 10, g: 0, b: 3 }, GradColor { r: 10, g: 10, b: 10 })
    } else {
        (GradColor { r: 10, g: 10, b: 3 }, GradColor { r: 10, g: 0, b: 4 })
    }
}

/// Every gradient endpoint channel is at most ten tenths.
pub open spec fn grad_color_wf(c: GradColor) -> bool {
    c.r <= 10 && c.g <= 10 && c.b <= 10
}

/// Looks up the gradient segment for a bucket index.
pub fn gradient_segment(i: u64) -> (r: (GradColor, GradColor))
    requires
        i < 9,
    ensures
        r == gradient_spec(i as int),
        grad_color_wf(r.0),
        grad_color_wf(r.1),
{
    if i == 0 {
        (GradColor { r: 2, g: 0, b: 10 }, GradColor { r: 10, g: 0, b: 6 })
    } else if i == 1 {
        (GradColor { r: 4, g: 2, b: 10 }, GradColor { r: 10, g: 4, b: 4 })
    } else if i == 2 {
        (GradColor { r: 3, g: 2, b: 10 }, GradColor { r: 0, g: 10, b: 0 })
    } else if i == 3 {
        (GradColor { r: 1, g: 1, b: 6 }, GradColor { r: 2, g: 10, b: 8 })
    } else if i == 4 {
        (GradColor { r: 1, g: 5, b: 10 }, GradColor { r: 4, g: 4, b: 4 })
    } else if i == 5 {
        (GradColor { r: 0, g: 10, b: 10 }, GradColor { r: 10, g: 2, b: 10 })
    } else if i == 6 {
        (GradColor { r: 7, g: 0, b: 10 }, GradColor { r: 10, g: 3, b: 1 })
    } else if i == 7 {
        (GradColor { r: 10, g: 0, b: 3 }, GradColor { r: 10, g: 10, b: 10 })
    } else {
        (GradColor { r: 10, g: 10, b: 3 }, GradColor { r: 10, g: 0, b: 4 })
    }
}

} // verus!
