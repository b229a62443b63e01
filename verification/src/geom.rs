use vstd::prelude::*;

use crate::rational::Rat;

verus! {

/// Physical size of a window surface in whole pixels.
#[derive(Clone, Copy, Debug, PartialEq, Eq, Structural)]
pub struct PhySize {
    pub width: u32,
    pub height: u32,
}

/// The logical screen rectangle handed to the GUI layer: its origin is the
/// window's top-left corner and its extent is kept as exact rationals in
/// logical points.
#[derive(Clone, Copy, Debug, PartialEq, Eq, Structural)]
pub struct ScreenRect {
    pub width: Rat,
    pub height: Rat,
}

impl ScreenRect {
    pub open spec fn wf(self) -> bool {
        self.width.wf() && self.height.wf()
    }
}

/// `l` denotes exactly `phys / ppp`, i.e. `l * ppp == phys` as rationals.
pub open spec fn is_exact_quotient(l: Rat, phys: int, ppp: Rat) -> bool {
    l.num * ppp.num == phys * ppp.den * l.den
}

/// The rectangle `calculate_screen_rect` computes; exact while the scale
/// factor is small.
pub open spec fn spec_screen_rect(physical_size: PhySize, pixels_per_point: Rat) -> ScreenRect {
    ScreenRect {
        width: Rat {
            num: (physical_size.width * pixels_per_point.den) as i64,
            den: pixels_per_point.num,
        },
        height: Rat {
            num: (physical_size.height * pixels_per_point.den) as i64,
            den: pixels_per_point.num,
        },
    }
}

/// Logical screen rectangle for a physical size: each side is exactly the
/// physical extent divided by the pixels-per-point scale factor.
pub fn calculate_screen_rect(physical_size: PhySize, pixels_per_point: Rat) -> (r: ScreenRect)
    requires
        pixels_per_point.is_pos(),
        pixels_per_point.small(),
    ensures
        r == spec_screen_rect(physical_size, pixels_per_point),
        r.wf(),
        r.width.num == physical_size.width * pixels_per_point.den,
        r.width.den == pixels_per_point.num,
        r.height.num == physical_size.height * pixels_per_point.den,
        r.height.den == pixels_per_point.num,
{
    proof {
        assert(physical_size.width * pixels_per_point.den < 0x7fff_ffff_ffff_ffffi64
            && physical_size.height * pixels_per_point.den < 0x7fff_ffff_ffff_ffffi64)
            by (nonlinear_arith)
            requires
                pixels_per_point.small(),
                physical_size.width <= u32::MAX,
                physical_size.height <= u32::MAX,
        ;
    }
    ScreenRect {
        width: Rat {
            num: physical_size.width as i64 * pixels_per_point.den,
            den: pixels_per_point.num,
        },
        height: Rat {
            num: physical_size.height as i64 * pixels_per_point.den,
            den: pixels_per_point.num,
        },
    }
}

/// The logical rectangle computed by `calculate_screen_rect` is the exact
/// quotient of the physical size by the scale: multiplying it back by the
/// pixels-per-point factor recovers the physical extent, with no rounding.
pub proof fn lemma_screen_rect_exact(physical_size: PhySize, pixels_per_point: Rat, r: ScreenRect)
    requires
        pixels_per_point.is_pos(),
        r.width.num == physical_size.width * pixels_per_point.den,
        r.width.den == pixels_per_point.num,
        r.height.num == physical_size.height * pixels_per_point.den,
        r.height.den == pixels_per_point.num,
    ensures
        is_exact_quotient(r.width, physical_size.width as int, pixels_per_point),
        is_exact_quotient(r.height, physical_size.height as int, pixels_per_point),
{
    assert(r.width.num * pixels_per_point.num
        == physical_size.width * pixels_per_point.den * r.width.den) by (nonlinear_arith)
        requires
            r.width.num == physical_size.width * pixels_per_point.den,
            r.width.den == pixels_per_point.num,
    ;
    assert(r.height.num * pixels_per_point.num
        == physical_size.height * pixels_per_point.den * r.height.den) by (nonlinear_arith)
        requires
            r.height.num == physical_size.height * pixels_per_point.den,
            r.height.den == pixels_per_point.num,
    ;
}

/// Nearest integer to the non-negative rational `p`, halves rounded up.
pub open spec fn spec_round(p: Rat) -> int {
    (2 * p.num + p.den) / (2 * p.den)
}

/// `spec_round` clamped to the range of `u32`.
pub open spec fn spec_round_u32(p: Rat) -> int {
    if spec_round(p) > u32::MAX {
        u32::MAX as int
    } else {
        spec_round(p)
    }
}

/// `spec_round` picks the nearest integer to the non-negative rational:
/// it misses the exact value by at most half either way, and an exact half
/// is rounded up.
pub proof fn lemma_round_is_nearest(p: Rat)
    requires
        p.wf(),
        0 <= p.num,
    ensures
        2 * (spec_round(p) * p.den - p.num) <= p.den,
        2 * (p.num - spec_round(p) * p.den) < p.den,
{
    let n = 2 * p.num + p.den;
    let d = 2 * p.den;
    let r = spec_round(p);
    vstd::arithmetic::div_mod::lemma_fundamental_div_mod(n, d);
    vstd::arithmetic::div_mod::lemma_mod_bound(n, d);
    assert(n == d * r + n % d);
    assert(0 <= n % d < d);
    assert(2 * (r * p.den - p.num) == p.den - n % d) by (nonlinear_arith)
        requires
            n == d * r + n % d,
            n == 2 * p.num + p.den,
            d == 2 * p.den,
    ;
}

/// Round a non-negative rational to the nearest whole number of pixels,
/// halves up, saturating at the largest `u32` (as a float-to-integer cast
/// would).
pub fn round_to_u32(p: Rat) -> (r: u32)
    requires
        0 <= p.num <= 0x4000_0000_0000_0000i64,
        0 < p.den <= 0x4000_0000_0000_0000i64,
    ensures
        r == spec_round_u32(p),
{
    let n: u64 = 2 * (p.num as u64) + (p.den as u64);
    let d: u64 = 2 * (p.den as u64);
    let q: u64 = n / d;
    if q > u32::MAX as u64 {
        u32::MAX
    } else {
        q as u32
    }
}

} // verus!
