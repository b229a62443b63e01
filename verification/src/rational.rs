use vstd::prelude::*;

verus! {

/// A signed rational number `num / den` with a positive denominator.
///
/// The session logic keeps scale factors, logical lengths and scroll
/// deltas as exact rationals, so statements such as "the logical size is
/// exactly the physical size divided by the scale" are meaningful.
#[derive(Clone, Copy, Debug, PartialEq, Eq, Structural)]
pub struct Rat {
    pub num: i64,
    pub den: i64,
}

impl Rat {
    /// The denominator is positive.
    pub open spec fn wf(self) -> bool {
        self.den > 0
    }

    /// Both components are small enough that products of two of them fit in `i64`.
    pub open spec fn small(self) -> bool {
        &&& -0x7fff_ffff <= self.num <= 0x7fff_ffff
        &&& 0 < self.den <= 0x7fff_ffff
    }

    /// `self` and `other` denote the same rational number (cross multiplication).
    pub open spec fn same(self, other: Rat) -> bool {
        self.num * other.den == other.num * self.den
    }

    /// The rational is strictly positive.
    pub open spec fn is_pos(self) -> bool {
        self.num > 0 && self.den > 0
    }

    /// The product as `mul` computes it; exact while both factors are small.
    pub open spec fn spec_mul(self, other: Rat) -> Rat {
        Rat { num: (self.num * other.num) as i64, den: (self.den * other.den) as i64 }
    }

    /// The negation as `neg` computes it.
    pub open spec fn spec_neg(self) -> Rat {
        Rat { num: (-self.num) as i64, den: self.den }
    }

    /// The reciprocal of a positive rational.
    pub open spec fn spec_recip(self) -> Rat {
        Rat { num: self.den, den: self.num }
    }

    /// `self` where it is at least one, otherwise one.
    pub open spec fn spec_max_one(self) -> Rat {
        if self.num >= self.den {
            self
        } else {
            Rat { num: 1, den: 1 }
        }
    }

    /// Embed an integer.
    pub fn of_int(n: i64) -> (r: Rat)
        ensures
            r.wf(),
            r.num == n,
            r.den == 1,
    {
        Rat { num: n, den: 1 }
    }

    /// Negation.
    pub fn neg(self) -> (r: Rat)
        requires
            self.num > i64::MIN,
        ensures
            r == self.spec_neg(),
            r.num == -self.num,
            r.den == self.den,
            self.wf() ==> r.wf(),
    {
        Rat { num: -self.num, den: self.den }
    }

    /// Exact product of two small rationals.
    pub fn mul(self, other: Rat) -> (r: Rat)
        requires
            self.small(),
            other.small(),
        ensures
            r == self.spec_mul(other),
            r.num == self.num * other.num,
            r.den == self.den * other.den,
            r.wf(),
    {
        proof {
            assert(-0x3fff_ffff_0000_0001i64 <= self.num * other.num <= 0x3fff_ffff_0000_0001i64
                && 0 < self.den * other.den <= 0x3fff_ffff_0000_0001i64) by (nonlinear_arith)
                requires
                    self.small(),
                    other.small(),
            ;
        }
        Rat { num: self.num * other.num, den: self.den * other.den }
    }

    /// Reciprocal of a positive rational.
    pub fn recip(self) -> (r: Rat)
        requires
            self.is_pos(),
        ensures
            r == self.spec_recip(),
            r.is_pos(),
            self.small() ==> r.small(),
    {
        Rat { num: self.den, den: self.num }
    }

    /// Clamp to at least one.
    pub fn max_one(self) -> (r: Rat)
        requires
            self.wf(),
        ensures
            r == self.spec_max_one(),
            r.wf(),
    {
        if self.num >= self.den {
            self
        } else {
            Rat { num: 1, den: 1 }
        }
    }

    /// Whether two small rationals denote the same number.
    pub fn same_value(self, other: Rat) -> (r: bool)
        requires
            self.small(),
            other.small(),
        ensures
            r == self.same(other),
    {
        proof {
            assert(-0x3fff_ffff_0000_0001i64 <= self.num * other.den <= 0x3fff_ffff_0000_0001i64
                && -0x3fff_ffff_0000_0001i64 <= other.num * self.den
                    <= 0x3fff_ffff_0000_0001i64) by (nonlinear_arith)
                requires
                    self.small(),
                    other.small(),
            ;
        }
        self.num * other.den == other.num * self.den
    }
}

} // verus!
