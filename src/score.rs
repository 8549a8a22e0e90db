//! A value pair for the middlegame and the endgame, and its linear taper.

use vstd::arithmetic::div_mod::{
    lemma_div_by_multiple, lemma_div_is_ordered, lemma_div_pos_is_pos, lemma_multiply_divide_le,
};
use vstd::prelude::*;

verus! {

/// Division rounding towards zero, as Rust's `/` does on signed integers.
pub open spec fn trunc_div(a: int, d: int) -> int {
    if a >= 0 {
        a / d
    } else {
        -((-a) / d)
    }
}

/// The tapered value of `(mg, eg)`: the weight of `mg` grows from nothing at
/// `phase == 0` to all of it at `phase == max_phase`.
pub open spec fn interpolated(mg: int, eg: int, phase: int, max_phase: int) -> int {
    trunc_div(mg * phase + eg * (max_phase - phase), max_phase)
}

pub open spec fn min_int(a: int, b: int) -> int {
    if a <= b {
        a
    } else {
        b
    }
}

pub open spec fn max_int(a: int, b: int) -> int {
    if a <= b {
        b
    } else {
        a
    }
}

pub open spec fn fits_i32(x: int) -> bool {
    i32::MIN <= x <= i32::MAX
}

/// A feature's weight in the middlegame (`mg`) and in the endgame (`eg`).
#[derive(Clone, Copy, Debug, PartialEq, Eq, Structural)]
pub struct PhasedScore {
    pub mg: i32,
    pub eg: i32,
}

impl PhasedScore {
    pub fn new(mg: i32, eg: i32) -> (r: PhasedScore)
        ensures
            r.mg == mg,
            r.eg == eg,
    {
        PhasedScore { mg, eg }
    }

    /// The componentwise sum.
    pub fn add(&self, other: &PhasedScore) -> (r: PhasedScore)
        requires
            fits_i32(self.mg + other.mg),
            fits_i32(self.eg + other.eg),
        ensures
            r.mg == self.mg + other.mg,
            r.eg == self.eg + other.eg,
    {
        PhasedScore { mg: self.mg + other.mg, eg: self.eg + other.eg }
    }

    /// The componentwise difference.
    pub fn sub(&self, other: &PhasedScore) -> (r: PhasedScore)
        requires
            fits_i32(self.mg - other.mg),
            fits_i32(self.eg - other.eg),
        ensures
            r.mg == self.mg - other.mg,
            r.eg == self.eg - other.eg,
    {
        PhasedScore { mg: self.mg - other.mg, eg: self.eg - other.eg }
    }

    /// The componentwise negation.
    pub fn negate(&self) -> (r: PhasedScore)
        requires
            self.mg != i32::MIN,
            self.eg != i32::MIN,
        ensures
            r.mg == -self.mg,
            r.eg == -self.eg,
    {
        PhasedScore { mg: -self.mg, eg: -self.eg }
    }

    /// Collapses the pair into one score for a position at `phase` out of
    /// `max_phase`, rounding the weighted mean towards zero.
    pub fn interpolate(&self, phase: i32, max_phase: i32) -> (r: i32)
        requires
            0 < max_phase,
            0 <= phase <= max_phase,
        ensures
            r == interpolated(self.mg as int, self.eg as int, phase as int, max_phase as int),
    {
        let mg = self.mg as i64;
        let eg = self.eg as i64;
        let p = phase as i64;
        let m = max_phase as i64;
        proof {
            let lo = min_int(mg as int, eg as int);
            let hi = max_int(mg as int, eg as int);
            lemma_weighted_sum_between(mg as int, eg as int, p as int, m as int);
            assert(-0x8000_0000 * m <= lo * m) by (nonlinear_arith)
                requires
                    -0x8000_0000 <= lo,
                    0 < m,
            ;
            assert(hi * m <= 0x8000_0000 * m) by (nonlinear_arith)
                requires
                    hi <= 0x8000_0000,
                    0 < m,
            ;
            assert(0x8000_0000 * m <= 0x8000_0000 * 0x8000_0000) by (nonlinear_arith)
                requires
                    m <= 0x8000_0000,
            ;
            assert(0 <= mg * p <= 0x8000_0000 * 0x8000_0000 || -0x8000_0000 * 0x8000_0000 <= mg
                * p <= 0) by (nonlinear_arith)
                requires
                    -0x8000_0000 <= mg <= 0x8000_0000,
                    0 <= p <= 0x8000_0000,
            ;
            assert(0 <= eg * (m - p) <= 0x8000_0000 * 0x8000_0000 || -0x8000_0000 * 0x8000_0000
                <= eg * (m - p) <= 0) by (nonlinear_arith)
                requires
                    -0x8000_0000 <= eg <= 0x8000_0000,
                    0 <= m - p <= 0x8000_0000,
            ;
        }
        let num: i64 = mg * p + eg * (m - p);
        let q: i64 = if num >= 0 {
            num / m
        } else {
            -((-num) / m)
        };
        proof {
            lemma_interpolation_bounds(*self, phase as int, max_phase as int);
        }
        q as i32
    }
}

/// `n / d` lies in `[a, b]` when `n` lies in `[a * d, b * d]`.
proof fn lemma_quotient_between(n: int, d: int, a: int, b: int)
    requires
        0 <= n,
        0 < d,
        a * d <= n <= b * d,
    ensures
        a <= n / d <= b,
{
    lemma_div_pos_is_pos(n, d);
    assert(n <= d * b) by (nonlinear_arith)
        requires
            n <= b * d,
    ;
    lemma_multiply_divide_le(n, d, b);
    if a > 0 {
        lemma_div_by_multiple(a, d);
        lemma_div_is_ordered(a * d, n, d);
    }
}

/// The weighted sum behind the taper lies between the smaller and the larger
/// component, each taken `max_phase` times.
proof fn lemma_weighted_sum_between(mg: int, eg: int, phase: int, max_phase: int)
    requires
        0 < max_phase,
        0 <= phase <= max_phase,
    ensures
        min_int(mg, eg) * max_phase <= mg * phase + eg * (max_phase - phase),
        mg * phase + eg * (max_phase - phase) <= max_int(mg, eg) * max_phase,
{
    let lo = min_int(mg, eg);
    let hi = max_int(mg, eg);
    assert(lo * max_phase <= mg * phase + eg * (max_phase - phase) <= hi * max_phase)
        by (nonlinear_arith)
        requires
            lo <= mg <= hi,
            lo <= eg <= hi,
            0 <= phase <= max_phase,
    ;
}

/// For every score and every phase in `[0, max_phase]`, the tapered value
/// lies between the smaller and the larger of the two components.
pub proof fn lemma_interpolation_bounds(s: PhasedScore, phase: int, max_phase: int)
    requires
        0 < max_phase,
        0 <= phase <= max_phase,
    ensures
        min_int(s.mg as int, s.eg as int) <= interpolated(s.mg as int, s.eg as int, phase, max_phase),
        interpolated(s.mg as int, s.eg as int, phase, max_phase) <= max_int(s.mg as int, s.eg as int),
{
    let mg = s.mg as int;
    let eg = s.eg as int;
    let lo = min_int(mg, eg);
    let hi = max_int(mg, eg);
    let n = mg * phase + eg * (max_phase - phase);
    lemma_weighted_sum_between(mg, eg, phase, max_phase);
    if n >= 0 {
        lemma_quotient_between(n, max_phase, lo, hi);
    } else {
        assert((-hi) * max_phase <= -n <= (-lo) * max_phase) by (nonlinear_arith)
            requires
                lo * max_phase <= n <= hi * max_phase,
        ;
        lemma_quotient_between(-n, max_phase, -hi, -lo);
    }
}

/// At the full phase the taper gives the middlegame value, and at phase zero
/// the endgame value, exactly.
pub proof fn lemma_interpolation_endpoints(s: PhasedScore, max_phase: int)
    requires
        0 < max_phase,
    ensures
        interpolated(s.mg as int, s.eg as int, max_phase, max_phase) == s.mg,
        interpolated(s.mg as int, s.eg as int, 0, max_phase) == s.eg,
{
    let mg = s.mg as int;
    let eg = s.eg as int;
    assert(mg * max_phase + eg * (max_phase - max_phase) == mg * max_phase) by (nonlinear_arith);
    assert(mg * 0 + eg * (max_phase - 0) == eg * max_phase) by (nonlinear_arith);
    lemma_exact_quotient(mg, max_phase);
    lemma_exact_quotient(eg, max_phase);
}

/// Truncating division undoes multiplication by a positive divisor.
proof fn lemma_exact_quotient(x: int, d: int)
    requires
        0 < d,
    ensures
        trunc_div(x * d, d) == x,
{
    if x >= 0 {
        assert(x * d >= 0) by (nonlinear_arith)
            requires
                x >= 0,
                d > 0,
        ;
        lemma_div_by_multiple(x, d);
    } else {
        assert(x * d < 0 && -(x * d) == (-x) * d) by (nonlinear_arith)
            requires
                x < 0,
                d > 0,
        ;
        lemma_div_by_multiple(-x, d);
    }
}

} // verus!
