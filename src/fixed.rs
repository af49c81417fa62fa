//! Fixed-point arithmetic on non-negative quantities.
//!
//! A quantity is held as a `u128` count of millionths of its unit (N, mm,
//! MPa and their products). Products and quotients round down, once per
//! operation; square roots round down too. The plain operations take
//! operands up to `LIMIT`, which keeps every intermediate inside `u128`; the
//! checked ones give `None` where an intermediate would leave it.
use vstd::prelude::*;

verus! {

/// Number of fixed-point steps in one unit.
pub const SCALE: u128 = 1_000_000;

/// Largest operand of the operations below (a million million units).
pub const LIMIT: u128 = 1_000_000_000_000_000_000;

/// Whether a fixed-point value may be used as an operand.
pub open spec fn in_range(a: int) -> bool {
    0 <= a <= LIMIT
}

/// The product of two fixed-point values, rounded down.
pub open spec fn fx_mul(a: int, b: int) -> int {
    a * b / (SCALE as int)
}

/// The quotient of two fixed-point values, rounded down.
pub open spec fn fx_div(a: int, b: int) -> int {
    a * (SCALE as int) / b
}

/// `r` is the integer square root of `n`: the largest whole number whose
/// square does not exceed `n`.
pub open spec fn is_isqrt(n: int, r: int) -> bool {
    0 <= r && r * r <= n && n < (r + 1) * (r + 1)
}

/// The integer square root of a non-negative integer.
pub open spec fn isqrt_of(n: int) -> int {
    choose|r: int| is_isqrt(n, r)
}

/// The square root of a fixed-point value, rounded down.
pub open spec fn fx_sqrt(a: int) -> int {
    isqrt_of(a * (SCALE as int))
}

/// Product of two values; `None` where an operand is absent or the exact
/// product leaves `u128`.
pub open spec fn mul_checked(a: Option<u128>, b: Option<u128>) -> Option<u128> {
    match (a, b) {
        (Some(x), Some(y)) => if x * y <= u128::MAX {
            Some(fx_mul(x as int, y as int) as u128)
        } else {
            None
        },
        _ => None,
    }
}

/// Quotient of two values; `None` where an operand is absent, the divisor is
/// zero or the scaled dividend leaves `u128`.
pub open spec fn div_checked(a: Option<u128>, b: Option<u128>) -> Option<u128> {
    match (a, b) {
        (Some(x), Some(y)) => if x * SCALE <= u128::MAX && y > 0 {
            Some(fx_div(x as int, y as int) as u128)
        } else {
            None
        },
        _ => None,
    }
}

/// Square root of a value; `None` where it is absent or the scaled value
/// leaves `u128`.
pub open spec fn sqrt_checked(a: Option<u128>) -> Option<u128> {
    match a {
        Some(x) => if x * SCALE <= u128::MAX {
            Some(fx_sqrt(x as int) as u128)
        } else {
            None
        },
        None => None,
    }
}

/// Sum of two values; `None` where an operand is absent or the sum leaves
/// `u128`.
pub open spec fn add_checked(a: Option<u128>, b: Option<u128>) -> Option<u128> {
    match (a, b) {
        (Some(x), Some(y)) => if x + y <= u128::MAX {
            Some((x + y) as u128)
        } else {
            None
        },
        _ => None,
    }
}

/// The integer square root is unique.
pub proof fn lemma_isqrt_unique(n: int, r: int, s: int)
    requires
        is_isqrt(n, r),
        is_isqrt(n, s),
    ensures
        r == s,
{
    if r < s {
        assert((r + 1) * (r + 1) <= s * s) by (nonlinear_arith)
            requires
                0 <= r + 1 <= s,
        ;
    } else if s < r {
        assert((s + 1) * (s + 1) <= r * r) by (nonlinear_arith)
            requires
                0 <= s + 1 <= r,
        ;
    }
}

/// A root found for `n` is the one that `isqrt_of` names.
pub proof fn lemma_isqrt_of(n: int, r: int)
    requires
        is_isqrt(n, r),
    ensures
        isqrt_of(n) == r,
{
    let s = isqrt_of(n);
    assert(is_isqrt(n, s));
    lemma_isqrt_unique(n, r, s);
}

/// Integer square root, by bisection.
pub fn isqrt(n: u128) -> (r: u128)
    ensures
        is_isqrt(n as int, r as int),
        r == isqrt_of(n as int),
{
    let mut lo: u128 = 0;
    let mut hi: u128 = 0x1_0000_0000_0000_0000;
    assert(hi * hi > n) by (nonlinear_arith)
        requires
            hi == 0x1_0000_0000_0000_0000u128,
            n <= u128::MAX,
    ;
    while hi - lo > 1
        invariant
            lo < hi <= 0x1_0000_0000_0000_0000u128,
            lo * lo <= n,
            n < hi * hi,
        decreases hi - lo,
    {
        let mid = lo + (hi - lo) / 2;
        assert(mid * mid <= 0xffff_ffff_ffff_ffffu128 * 0xffff_ffff_ffff_ffffu128) by (nonlinear_arith)
            requires
                mid < 0x1_0000_0000_0000_0000u128,
        ;
        if mid * mid <= n {
            lo = mid;
        } else {
            hi = mid;
        }
    }
    proof {
        lemma_isqrt_of(n as int, lo as int);
    }
    lo
}

/// Product of two fixed-point values, rounded down.
pub fn mul_fx(a: u128, b: u128) -> (r: u128)
    requires
        in_range(a as int),
        in_range(b as int),
    ensures
        r == fx_mul(a as int, b as int),
{
    assert(a * b <= LIMIT * LIMIT) by (nonlinear_arith)
        requires
            a <= LIMIT,
            b <= LIMIT,
    ;
    a * b / SCALE
}

/// Quotient of two fixed-point values, rounded down.
pub fn div_fx(a: u128, b: u128) -> (r: u128)
    requires
        in_range(a as int),
        in_range(b as int),
        b > 0,
    ensures
        r == fx_div(a as int, b as int),
{
    a * SCALE / b
}

/// Square root of a fixed-point value, rounded down.
pub fn sqrt_fx(a: u128) -> (r: u128)
    requires
        in_range(a as int),
    ensures
        r == fx_sqrt(a as int),
{
    isqrt(a * SCALE)
}

/// Product of two optional values (see `mul_checked`).
pub fn mul_opt(a: Option<u128>, b: Option<u128>) -> (r: Option<u128>)
    ensures
        r == mul_checked(a, b),
{
    match (a, b) {
        (Some(x), Some(y)) => match x.checked_mul(y) {
            Some(p) => Some(p / SCALE),
            None => None,
        },
        _ => None,
    }
}

/// Quotient of two optional values (see `div_checked`).
pub fn div_opt(a: Option<u128>, b: Option<u128>) -> (r: Option<u128>)
    ensures
        r == div_checked(a, b),
{
    match (a, b) {
        (Some(x), Some(y)) => if y == 0 {
            None
        } else {
            match x.checked_mul(SCALE) {
                Some(p) => Some(p / y),
                None => None,
            }
        },
        _ => None,
    }
}

/// Sum of two optional values (see `add_checked`).
pub fn add_opt(a: Option<u128>, b: Option<u128>) -> (r: Option<u128>)
    ensures
        r == add_checked(a, b),
{
    match (a, b) {
        (Some(x), Some(y)) => x.checked_add(y),
        _ => None,
    }
}

/// Square root of an optional value (see `sqrt_checked`).
pub fn sqrt_opt(a: Option<u128>) -> (r: Option<u128>)
    ensures
        r == sqrt_checked(a),
{
    match a {
        Some(x) => match x.checked_mul(SCALE) {
            Some(p) => Some(isqrt(p)),
            None => None,
        },
        None => None,
    }
}

} // verus!
