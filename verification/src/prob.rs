use vstd::arithmetic::div_mod::{lemma_div_is_ordered, lemma_multiply_divide_lt};
use vstd::arithmetic::mul::{lemma_mul_strict_inequality, lemma_mul_upper_bound};
use vstd::prelude::*;

verus! {

/// Fixed-point scale for probabilities: a `Prob` with numerator `n` stands
/// for the rational `n / DEN`, a value in `[0, 1)`.
pub const DEN: u64 = 1_000_000_000;

/// Chance of reaching the terminal case of the recursive mapper: `1 / 100`,
/// that is `LEAVE_NUM / DEN`.
pub const LEAVE_NUM: u64 = 10_000_000;

/// Chance, within the non-terminal branch, of selecting a unary transform:
/// `1 / 5`, that is `UNARY_NUM / DEN`.
pub const UNARY_NUM: u64 = 200_000_000;

/// A probability value in `[0, 1)`, held as a fixed-point numerator over
/// `DEN`. The recursive mapper and the color mapper consume such a value by
/// repeatedly bucketing it and rescaling the bucket back to `[0, 1)`.
#[derive(Clone, Copy, PartialEq, Eq, Structural, Debug)]
pub struct Prob {
    n: u64,
}

impl View for Prob {
    type V = int;

    closed spec fn view(&self) -> int {
        self.n as int
    }
}

/// True when the value falls in the terminal bucket `[0, 1/100)`.
pub open spec fn leave_spec(n: int) -> bool {
    n < LEAVE_NUM as int
}

/// True when the terminal bucket, rescaled to `[0, 1)`, falls in its lower
/// half: the terminal value is then the first argument of the mapper.
pub open spec fn leaf_first_spec(n: int) -> bool {
    200 * n < DEN as int
}

/// The value rescaled from the non-terminal bucket `[1/100, 1)` back to
/// `[0, 1)`, rounding down.
pub open spec fn rest_spec(n: int) -> int {
    (n - LEAVE_NUM as int) * 100 / 99
}

/// True when the rescaled non-terminal value falls in the unary bucket
/// `[0, 1/5)`.
pub open spec fn unary_spec(n: int) -> bool {
    n < UNARY_NUM as int
}

/// The value rescaled from the unary bucket `[0, 1/5)` back to `[0, 1)`.
pub open spec fn unary_rescale_spec(n: int) -> int {
    5 * n
}

/// The value rescaled from the binary bucket `[1/5, 1)` back to `[0, 1)`,
/// rounding down.
pub open spec fn binary_rescale_spec(n: int) -> int {
    (n - UNARY_NUM as int) * 5 / 4
}

/// True when the value falls in the lower half `[0, 1/2)`.
pub open spec fn first_half_spec(n: int) -> bool {
    2 * n < DEN as int
}

/// The value rescaled from `[0, 1/2)` back to `[0, 1)`.
pub open spec fn half_low_spec(n: int) -> int {
    2 * n
}

/// The value rescaled from `[1/2, 1)` back to `[0, 1)`.
pub open spec fn half_high_spec(n: int) -> int {
    2 * n - DEN as int
}

/// The index of the bucket containing the value when `[0, 1)` is split into
/// `k` equal buckets.
pub open spec fn bucket_spec(n: int, k: int) -> int {
    n * k / (DEN as int)
}

/// The fractional part of the value scaled by `k`, as a numerator over `DEN`.
pub open spec fn fract_spec(n: int, k: int) -> int {
    (n * k) % (DEN as int)
}

impl Prob {
    /// The numerator is a value in `[0, DEN)`.
    pub open spec fn wf(&self) -> bool {
        0 <= self@ < DEN as int
    }

    /// Builds a probability from a numerator over `DEN`; refuses a numerator
    /// of one or more.
    pub fn new(n: u64) -> (r: Option<Prob>)
        ensures
            n < DEN <==> (r matches Some(p) && p@ == n && p.wf()),
            n >= DEN <==> r is None,
    {
        if n < DEN {
            Some(Prob { n })
        } else {
            None
        }
    }

    /// The numerator over `DEN`.
    pub fn value(&self) -> (r: u64)
        ensures
            r == self@,
    {
        self.n
    }

    /// True when the value falls in the terminal bucket `[0, 1/100)`.
    pub fn leave(&self) -> (r: bool)
        ensures
            r == leave_spec(self@),
    {
        self.n < LEAVE_NUM
    }

    /// True when the terminal bucket, rescaled, falls in its lower half.
    pub fn leaf_first(&self) -> (r: bool)
        requires
            self.wf(),
        ensures
            r == leaf_first_spec(self@),
    {
        self.n * 200 < DEN
    }

    /// Rescales the non-terminal bucket `[1/100, 1)` back to `[0, 1)`.
    pub fn rescale_rest(&self) -> (r: Prob)
        requires
            self.wf(),
            !leave_spec(self@),
        ensures
            r@ == rest_spec(self@),
            r.wf(),
    {
        let m: u64 = (self.n - LEAVE_NUM) * 100 / 99;
        proof {
            lemma_div_is_ordered((self@ - LEAVE_NUM) * 100, (DEN - 1 - LEAVE_NUM) * 100, 99);
        }
        Prob { n: m }
    }

    /// True when the value falls in the unary bucket `[0, 1/5)`.
    pub fn unary(&self) -> (r: bool)
        ensures
            r == unary_spec(self@),
    {
        self.n < UNARY_NUM
    }

    /// Rescales the unary bucket `[0, 1/5)` back to `[0, 1)`.
    pub fn rescale_unary(&self) -> (r: Prob)
        requires
            self.wf(),
            unary_spec(self@),
        ensures
            r@ == unary_rescale_spec(self@),
            r.wf(),
    {
        Prob { n: 5 * self.n }
    }

    /// Rescales the binary bucket `[1/5, 1)` back to `[0, 1)`.
    pub fn rescale_binary(&self) -> (r: Prob)
        requires
            self.wf(),
            !unary_spec(self@),
        ensures
            r@ == binary_rescale_spec(self@),
            r.wf(),
    {
        let m: u64 = (self.n - UNARY_NUM) * 5 / 4;
        proof {
            lemma_div_is_ordered((self@ - UNARY_NUM) * 5, (DEN - 1 - UNARY_NUM) * 5, 4);
        }
        Prob { n: m }
    }

    /// True when the value falls in the lower half `[0, 1/2)`.
    pub fn first_half(&self) -> (r: bool)
        requires
            self.wf(),
        ensures
            r == first_half_spec(self@),
    {
        2 * self.n < DEN
    }

    /// Rescales the lower half `[0, 1/2)` back to `[0, 1)`.
    pub fn rescale_half_low(&self) -> (r: Prob)
        requires
            self.wf(),
            first_half_spec(self@),
        ensures
            r@ == half_low_spec(self@),
            r.wf(),
    {
        Prob { n: 2 * self.n }
    }

    /// Rescales the upper half `[1/2, 1)` back to `[0, 1)`.
    pub fn rescale_half_high(&self) -> (r: Prob)
        requires
            self.wf(),
            !first_half_spec(self@),
        ensures
            r@ == half_high_spec(self@),
            r.wf(),
    {
        Prob { n: 2 * self.n - DEN }
    }

    /// The index of the bucket containing the value when `[0, 1)` is split
    /// into `k` equal buckets.
    pub fn bucket(&self, k: u64) -> (r: u64)
        requires
            self.wf(),
            1 <= k <= 16,
        ensures
            r == bucket_spec(self@, k as int),
            r < k,
    {
        proof {
            lemma_mul_upper_bound(self@, DEN - 1, k as int, 16);
        }
        let r: u64 = self.n * k / DEN;
        proof {
            lemma_mul_strict_inequality(self@, DEN as int, k as int);
            lemma_multiply_divide_lt(self@ * k, DEN as int, k as int);
        }
        r
    }

    /// The fractional part of the value scaled by `k`, as a new probability.
    pub fn fract(&self, k: u64) -> (r: Prob)
        requires
            self.wf(),
            1 <= k <= 16,
        ensures
            r@ == fract_spec(self@, k as int),
            r.wf(),
    {
        proof {
            lemma_mul_upper_bound(self@, DEN - 1, k as int, 16);
        }
        Prob { n: self.n * k % DEN }
    }
}

} // verus!
