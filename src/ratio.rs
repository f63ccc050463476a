use vstd::prelude::*;

verus! {

/// An exact rational quantity `num / den`.
#[derive(Clone, Copy, Debug, PartialEq, Eq, Structural)]
pub struct Ratio {
    pub num: i128,
    pub den: i128,
}

impl Ratio {
    /// The denominator is positive.
    pub open spec fn wf(self) -> bool {
        self.den > 0
    }

    /// `self` and `other` denote the same rational number.
    pub open spec fn same_value(self, other: Ratio) -> bool {
        self.num * other.den == other.num * self.den
    }

    /// `self` denotes the whole number `n`.
    pub open spec fn is_whole(self, n: int) -> bool {
        self.num == n * self.den
    }

    /// The integer nearest to `self * scale`, halves away from zero.
    pub open spec fn spec_round_scaled(self, scale: int) -> int {
        if self.num >= 0 {
            (2 * self.num * scale + self.den) / (2 * self.den)
        } else {
            -((2 * (-self.num) * scale + self.den) / (2 * self.den))
        }
    }

    /// Rounds `self * scale` to the nearest integer, halves away from zero: with
    /// `scale` 1 a whole number, with 100 hundredths.
    pub fn round_scaled(self, scale: i128) -> (r: i128)
        requires
            self.wf(),
            self.den <= 1_000_000_000_000_000_000,
            -100_000_000_000_000_000_000_000_000_000_000_000 <= self.num
                <= 100_000_000_000_000_000_000_000_000_000_000_000,
            0 <= scale <= 100,
        ensures
            r == self.spec_round_scaled(scale as int),
    {
        let a: i128 = if self.num >= 0 { self.num } else { -self.num };
        proof {
            assert(0 <= 2 * a * scale <= 20_000_000_000_000_000_000_000_000_000_000_000_000) by (nonlinear_arith)
                requires
                    0 <= a <= 100_000_000_000_000_000_000_000_000_000_000_000,
                    0 <= scale <= 100,
            ;
        }
        let q: i128 = (2 * a * scale + self.den) / (2 * self.den);
        if self.num >= 0 {
            q
        } else {
            -q
        }
    }
}

} // verus!
