//! Buckling reduction factors (EN 1993-1-1, 6.3.1 and 6.3.2).
//!
//! All real quantities are fixed-point values (see `fixed`): `1_000_000`
//! stands for `1.0`.
use vstd::prelude::*;
use crate::fixed::{
    SCALE, LIMIT, in_range, fx_mul, fx_div, isqrt, isqrt_of, is_isqrt, lemma_isqrt_of,
    mul_fx, div_fx, mul_checked, div_checked, sqrt_checked, mul_opt, div_opt, sqrt_opt,
};
use crate::text::str_is;
use crate::err::{DesignError, checked, checked_exec};

verus! {

/// A flexural buckling curve.
#[derive(Clone, Copy, Debug, PartialEq, Eq, Structural)]
pub enum BuckleCurve {
    A0,
    A,
    B,
    C,
    D,
}

/// The curve that a name denotes.
pub open spec fn buckle_curve_named(s: Seq<char>) -> Option<BuckleCurve> {
    if s == "A0"@ || s == "a0"@ {
        Some(BuckleCurve::A0)
    } else if s == "A"@ || s == "a"@ {
        Some(BuckleCurve::A)
    } else if s == "B"@ || s == "b"@ {
        Some(BuckleCurve::B)
    } else if s == "C"@ || s == "c"@ {
        Some(BuckleCurve::C)
    } else if s == "D"@ || s == "d"@ {
        Some(BuckleCurve::D)
    } else {
        None
    }
}

impl BuckleCurve {
    /// The imperfection factor α of the curve: 0.13, 0.21, 0.34, 0.49, 0.76.
    pub open spec fn alpha_of(self) -> int {
        match self {
            BuckleCurve::A0 => 130_000,
            BuckleCurve::A => 210_000,
            BuckleCurve::B => 340_000,
            BuckleCurve::C => 490_000,
            BuckleCurve::D => 760_000,
        }
    }

    /// The imperfection factor α of the curve.
    pub fn alpha(&self) -> (r: u128)
        ensures
            r == self.alpha_of(),
    {
        match self {
            BuckleCurve::A0 => 130_000,
            BuckleCurve::A => 210_000,
            BuckleCurve::B => 340_000,
            BuckleCurve::C => 490_000,
            BuckleCurve::D => 760_000,
        }
    }

    /// The curve written as `A0`, `A`, `B`, `C` or `D`, in either case.
    pub fn get(identifier: &str) -> (r: Option<Self>)
        ensures
            r == buckle_curve_named(identifier@),
    {
        if str_is(identifier, "A0") || str_is(identifier, "a0") {
            Some(BuckleCurve::A0)
        } else if str_is(identifier, "A") || str_is(identifier, "a") {
            Some(BuckleCurve::A)
        } else if str_is(identifier, "B") || str_is(identifier, "b") {
            Some(BuckleCurve::B)
        } else if str_is(identifier, "C") || str_is(identifier, "c") {
            Some(BuckleCurve::C)
        } else if str_is(identifier, "D") || str_is(identifier, "d") {
            Some(BuckleCurve::D)
        } else {
            None
        }
    }
}

/// A lateral-torsional buckling curve.
#[derive(Clone, Copy, Debug, PartialEq, Eq, Structural)]
pub enum LTBCurve {
    A,
    B,
    C,
    D,
}

/// The curve that a name denotes.
pub open spec fn ltb_curve_named(s: Seq<char>) -> Option<LTBCurve> {
    if s == "A"@ || s == "a"@ {
        Some(LTBCurve::A)
    } else if s == "B"@ || s == "b"@ {
        Some(LTBCurve::B)
    } else if s == "C"@ || s == "c"@ {
        Some(LTBCurve::C)
    } else if s == "D"@ || s == "d"@ {
        Some(LTBCurve::D)
    } else {
        None
    }
}

impl LTBCurve {
    /// The imperfection factor α_LT of the curve: 0.21, 0.34, 0.49, 0.76.
    pub open spec fn alpha_of(self) -> int {
        match self {
            LTBCurve::A => 210_000,
            LTBCurve::B => 340_000,
            LTBCurve::C => 490_000,
            LTBCurve::D => 760_000,
        }
    }

    /// The imperfection factor α_LT of the curve.
    pub fn alpha(&self) -> (r: u128)
        ensures
            r == self.alpha_of(),
    {
        match self {
            LTBCurve::A => 210_000,
            LTBCurve::B => 340_000,
            LTBCurve::C => 490_000,
            LTBCurve::D => 760_000,
        }
    }

    /// The curve written as `A`, `B`, `C` or `D`, in either case.
    pub fn get(identifier: &str) -> (r: Option<Self>)
        ensures
            r == ltb_curve_named(identifier@),
    {
        if str_is(identifier, "A") || str_is(identifier, "a") {
            Some(LTBCurve::A)
        } else if str_is(identifier, "B") || str_is(identifier, "b") {
            Some(LTBCurve::B)
        } else if str_is(identifier, "C") || str_is(identifier, "c") {
            Some(LTBCurve::C)
        } else if str_is(identifier, "D") || str_is(identifier, "d") {
            Some(LTBCurve::D)
        } else {
            None
        }
    }
}

/// `φ = 0.5 · (1 + α · (λ̄ − 0.2) + λ̄²)`, with `α · 0.2` taken apart from
/// `α · λ̄` so that every step stays non-negative.
pub open spec fn phi_of(alpha: int, lambda: int) -> int {
    (SCALE as int + fx_mul(alpha, lambda) + fx_mul(lambda, lambda) - alpha / 5) / 2
}

/// `χ = 1 / (φ + √(φ² − λ̄²))`, bounded by 1. A negative radicand counts
/// as zero and a zero denominator gives 1.
pub open spec fn chi_of(phi: int, lambda: int) -> int {
    let d = phi * phi - lambda * lambda;
    let s = if d > 0 { isqrt_of(d) } else { 0 };
    let den = phi + s;
    let one = SCALE as int;
    if den == 0 {
        one
    } else if one * one / den > one {
        one
    } else {
        one * one / den
    }
}

/// `λ̄ = √(A · f_y / N_cr)` (or `√(W_y · f_y / M_cr)`); `InvalidInput`
/// where the critical value is zero or an intermediate leaves `u128`.
pub open spec fn slenderness(area: u128, fy: u128, n_cr: u128) -> Result<u128, DesignError> {
    checked(sqrt_checked(div_checked(mul_checked(Some(area), Some(fy)), Some(n_cr))))
}

/// Buckling resistance `N_b = χ · A · f_y / γ_M1` (6.47).
pub open spec fn buckling_resistance(khi: int, area: int, fy: int, gamma_1: int) -> int {
    fx_div(fx_mul(fx_mul(khi, area), fy), gamma_1)
}

/// The auxiliary value φ of flexural buckling for imperfection factor
/// `alpha` and slenderness `lambda`.
pub fn f_6_49_phi(alpha: u128, lambda: u128) -> (r: u128)
    requires
        alpha <= SCALE,
        in_range(lambda as int),
    ensures
        r == phi_of(alpha as int, lambda as int),
{
    let a = mul_fx(alpha, lambda);
    let b = mul_fx(lambda, lambda);
    assert(a <= LIMIT && b <= 1_000_000_000_000_000_000_000_000_000_000u128) by (nonlinear_arith)
        requires
            a == alpha * lambda / 1_000_000,
            b == lambda * lambda / 1_000_000,
            alpha <= 1_000_000,
            lambda <= LIMIT,
    ;
    (SCALE + a + b - alpha / 5) / 2
}

/// The buckling reduction factor χ for auxiliary value `phi` and slenderness
/// `lambda` (6.49).
pub fn f_6_49(phi: u128, lambda: u128) -> (r: u128)
    requires
        in_range(phi as int),
        in_range(lambda as int),
    ensures
        r == chi_of(phi as int, lambda as int),
        r <= SCALE,
{
    assert(phi * phi <= LIMIT * LIMIT && lambda * lambda <= LIMIT * LIMIT) by (nonlinear_arith)
        requires
            phi <= LIMIT,
            lambda <= LIMIT,
    ;
    let pp = phi * phi;
    let ll = lambda * lambda;
    let s = if pp > ll {
        isqrt(pp - ll)
    } else {
        0
    };
    proof {
        if pp > ll {
            assert(s * s <= pp - ll);
            assert(s <= phi) by (nonlinear_arith)
                requires
                    s * s <= phi * phi,
                    s >= 0,
                    phi >= 0,
            ;
        }
    }
    let den = phi + s;
    if den == 0 {
        SCALE
    } else if SCALE * SCALE / den > SCALE {
        SCALE
    } else {
        SCALE * SCALE / den
    }
}

/// The reduction factor χ_LT for lateral-torsional buckling (6.56): the
/// same algorithm as for flexural buckling.
pub fn f_6_56(phi_lt: u128, lambda_lt: u128) -> (r: u128)
    requires
        in_range(phi_lt as int),
        in_range(lambda_lt as int),
    ensures
        r == chi_of(phi_lt as int, lambda_lt as int),
        r <= SCALE,
{
    f_6_49(phi_lt, lambda_lt)
}

/// The auxiliary value φ_LT for lateral-torsional buckling.
pub fn f_6_56_phi_lt(alpha_lt: u128, lambda_lt: u128) -> (r: u128)
    requires
        alpha_lt <= SCALE,
        in_range(lambda_lt as int),
    ensures
        r == phi_of(alpha_lt as int, lambda_lt as int),
{
    f_6_49_phi(alpha_lt, lambda_lt)
}

/// The slenderness `λ̄ = √(A · f_y / N_cr)` for flexural buckling;
/// `InvalidInput` where the critical load is zero or a value leaves the
/// range of the arithmetic.
pub fn f_6_49_lambda(area: u128, fy: u128, n_cr: u128) -> (r: Result<u128, DesignError>)
    ensures
        r == slenderness(area, fy, n_cr),
{
    checked_exec(sqrt_opt(div_opt(mul_opt(Some(area), Some(fy)), Some(n_cr))))
}

/// The slenderness `λ̄_LT = √(W_y · f_y / M_cr)` for lateral-torsional
/// buckling; `InvalidInput` where the critical moment is zero or a value
/// leaves the range of the arithmetic.
pub fn f_6_56_lambda_lt(wy: u128, fy: u128, m_cr: u128) -> (r: Result<u128, DesignError>)
    ensures
        r == slenderness(wy, fy, m_cr),
{
    f_6_49_lambda(wy, fy, m_cr)
}

/// The buckling resistance `χ · A · f_y / γ_M1` of a member in compression.
pub fn f_6_47(khi: u128, area: u128, fy: u128, gamma_1: u128) -> (r: u128)
    requires
        in_range(khi as int),
        in_range(area as int),
        in_range(fy as int),
        in_range(gamma_1 as int),
        gamma_1 > 0,
        in_range(fx_mul(khi as int, area as int)),
        in_range(fx_mul(fx_mul(khi as int, area as int), fy as int)),
    ensures
        r == buckling_resistance(khi as int, area as int, fy as int, gamma_1 as int),
{
    div_fx(mul_fx(mul_fx(khi, area), fy), gamma_1)
}

/// For every imperfection factor up to 1 (every buckling curve) and every
/// slenderness, the reduction factor lies between 0 and 1.
pub proof fn lemma_chi_between_zero_and_one(alpha: int, lambda: int)
    requires
        0 <= alpha <= SCALE,
        lambda >= 0,
    ensures
        0 <= chi_of(phi_of(alpha, lambda), lambda) <= SCALE,
{
    let phi = phi_of(alpha, lambda);
    assert(fx_mul(alpha, lambda) >= 0 && fx_mul(lambda, lambda) >= 0) by (nonlinear_arith)
        requires
            alpha >= 0,
            lambda >= 0,
    ;
    assert(phi >= 0);
    let d = phi * phi - lambda * lambda;
    if d > 0 {
        let r = isqrt_to_witness(d);
        lemma_isqrt_of(d, r);
    }
}

/// The reduction factor for flexural buckling lies between 0 and 1 on every
/// buckling curve and at every slenderness.
pub proof fn lemma_chi_curve_between_zero_and_one(curve: BuckleCurve, lambda: int)
    requires
        lambda >= 0,
    ensures
        0 <= chi_of(phi_of(curve.alpha_of(), lambda), lambda) <= SCALE,
{
    lemma_chi_between_zero_and_one(curve.alpha_of(), lambda);
}

/// The reduction factor for lateral-torsional buckling lies between 0 and 1
/// on every curve and at every slenderness.
pub proof fn lemma_chi_lt_between_zero_and_one(curve: LTBCurve, lambda: int)
    requires
        lambda >= 0,
    ensures
        0 <= chi_of(phi_of(curve.alpha_of(), lambda), lambda) <= SCALE,
{
    lemma_chi_between_zero_and_one(curve.alpha_of(), lambda);
}

/// Some integer square root of a non-negative integer exists.
proof fn isqrt_to_witness(n: int) -> (r: int)
    requires
        n >= 0,
    ensures
        is_isqrt(n, r),
    decreases n,
{
    if n == 0 {
        0
    } else {
        let q = isqrt_to_witness(n - 1);
        if (q + 1) * (q + 1) <= n {
            assert((q + 1) * (q + 1) == n) by (nonlinear_arith)
                requires
                    (q + 1) * (q + 1) <= n,
                    n - 1 < (q + 1) * (q + 1),
            ;
            assert(n < ((q + 1) + 1) * ((q + 1) + 1)) by (nonlinear_arith)
                requires
                    (q + 1) * (q + 1) == n,
                    q >= 0,
            ;
            q + 1
        } else {
            q
        }
    }
}

/// At zero slenderness the reduction factor is 1 for every buckling curve:
/// a member of negligible slenderness keeps its full capacity.
pub proof fn lemma_chi_at_zero_slenderness(curve: BuckleCurve)
    ensures
        chi_of(phi_of(curve.alpha_of(), 0), 0) == SCALE,
{
    lemma_chi_at_zero(curve.alpha_of());
}

/// At zero slenderness the reduction factor is 1 for every
/// lateral-torsional buckling curve.
pub proof fn lemma_chi_lt_at_zero_slenderness(curve: LTBCurve)
    ensures
        chi_of(phi_of(curve.alpha_of(), 0), 0) == SCALE,
{
    lemma_chi_at_zero(curve.alpha_of());
}

proof fn lemma_chi_at_zero(alpha: int)
    requires
        0 <= alpha <= SCALE,
    ensures
        chi_of(phi_of(alpha, 0), 0) == SCALE,
{
    let phi = phi_of(alpha, 0);
    assert(fx_mul(alpha, 0) == 0 && fx_mul(0, 0) == 0);
    assert(400_000 <= phi <= 500_000);
    let d = phi * phi - 0 * 0;
    assert(d == phi * phi);
    assert(d > 0) by (nonlinear_arith)
        requires
            d == phi * phi,
            phi > 0,
    ;
    assert(is_isqrt(d, phi)) by (nonlinear_arith)
        requires
            d == phi * phi,
            phi > 0,
    ;
    lemma_isqrt_of(d, phi);
    let den = phi + phi;
    assert(SCALE * SCALE / den >= SCALE) by (nonlinear_arith)
        requires
            0 < den <= 1_000_000,
    ;
}

} // verus!
