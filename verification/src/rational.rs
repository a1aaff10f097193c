use vstd::prelude::*;

verus! {

/// The mathematical value of a rational: an unbounded integer pair.
/// Spec-level only; the executable counterpart is [`Rat`].
#[verifier::ext_equal]
pub ghost struct Ratio {
    pub num: int,
    pub den: int,
}

impl Ratio {
    /// A ratio is well formed when its denominator is positive.
    pub open spec fn wf(self) -> bool {
        self.den > 0
    }

    /// Two ratios denote the same rational number (cross multiplication).
    pub open spec fn same_value(self, other: Ratio) -> bool {
        self.num * other.den == other.num * self.den
    }

    /// Multiply by the ratio n / d.
    pub open spec fn scaled(self, n: int, d: int) -> Ratio {
        Ratio { num: self.num * n, den: self.den * d }
    }

    /// Subtract the ratio n / d.
    pub open spec fn minus(self, n: int, d: int) -> Ratio {
        Ratio { num: self.num * d - n * self.den, den: self.den * d }
    }

    /// Add the ratio n / d.
    pub open spec fn plus(self, n: int, d: int) -> Ratio {
        Ratio { num: self.num * d + n * self.den, den: self.den * d }
    }

    /// The product of two ratios.
    pub open spec fn times(self, other: Ratio) -> Ratio {
        Ratio { num: self.num * other.num, den: self.den * other.den }
    }

    /// The difference of two ratios.
    pub open spec fn diff(self, other: Ratio) -> Ratio {
        Ratio { num: self.num * other.den - other.num * self.den, den: self.den * other.den }
    }
}

/// An exact rational number. The denominator is kept positive, so the sign
/// of the value is the sign of `num`.
#[derive(Clone, Copy, Debug, PartialEq, Eq, Structural)]
pub struct Rat {
    pub num: i128,
    pub den: i128,
}

impl View for Rat {
    type V = Ratio;

    open spec fn view(&self) -> Ratio {
        Ratio { num: self.num as int, den: self.den as int }
    }
}

impl Rat {
    /// Denominator positive: every value handed out by this crate keeps it.
    pub open spec fn wf(self) -> bool {
        self.den > 0
    }

    /// Build a rational from an explicit numerator and denominator.
    pub fn new(num: i128, den: i128) -> (r: Rat)
        requires
            den > 0,
        ensures
            r@.num == num as int,
            r@.den == den as int,
            r.wf(),
    {
        Rat { num, den }
    }

    /// The rational n / 1.
    pub fn from_int(n: i64) -> (r: Rat)
        ensures
            r@.num == n as int,
            r@.den == 1,
            r.wf(),
    {
        Rat { num: n as i128, den: 1 }
    }

    /// Multiply by the constant ratio n / d, exactly.
    pub fn scaled(&self, n: i128, d: i128) -> (r: Rat)
        requires
            self.wf(),
            n >= 1,
            d >= 1,
            -i128::MAX <= self.num * n <= i128::MAX,
            self.den * d <= i128::MAX,
        ensures
            r@ == self@.scaled(n as int, d as int),
            r.wf(),
    {
        proof {
            assert(self.den * d > 0) by (nonlinear_arith)
                requires
                    self.den > 0,
                    d >= 1,
            ;
        }
        Rat { num: self.num * n, den: self.den * d }
    }

    /// Subtract the constant ratio n / d, exactly.
    pub fn minus_const(&self, n: i128, d: i128) -> (r: Rat)
        requires
            self.wf(),
            d >= 1,
            -i128::MAX <= self.num * d <= i128::MAX,
            -i128::MAX <= n * self.den <= i128::MAX,
            -i128::MAX <= self.num * d - n * self.den <= i128::MAX,
            self.den * d <= i128::MAX,
        ensures
            r@ == self@.minus(n as int, d as int),
            r.wf(),
    {
        proof {
            assert(self.den * d > 0) by (nonlinear_arith)
                requires
                    self.den > 0,
                    d >= 1,
            ;
        }
        Rat { num: self.num * d - n * self.den, den: self.den * d }
    }

    /// Add the constant ratio n / d, exactly.
    pub fn plus_const(&self, n: i128, d: i128) -> (r: Rat)
        requires
            self.wf(),
            d >= 1,
            -i128::MAX <= self.num * d <= i128::MAX,
            -i128::MAX <= n * self.den <= i128::MAX,
            -i128::MAX <= self.num * d + n * self.den <= i128::MAX,
            self.den * d <= i128::MAX,
        ensures
            r@ == self@.plus(n as int, d as int),
            r.wf(),
    {
        proof {
            assert(self.den * d > 0) by (nonlinear_arith)
                requires
                    self.den > 0,
                    d >= 1,
            ;
        }
        Rat { num: self.num * d + n * self.den, den: self.den * d }
    }
}

} // verus!
