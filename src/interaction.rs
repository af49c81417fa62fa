//! Resistance checks of a member under axial force and bending
//! (EN 1993-1-1, 6.2, 6.3.3 and Annex B).
//!
//! All real quantities are fixed-point values (see `fixed`). A check that
//! cannot be evaluated (a zero divisor, a magnitude out of range) gives
//! `None`.
use vstd::prelude::*;
use crate::classify::CrossSectionClass;
use crate::fixed::{
    SCALE, LIMIT, fx_mul, mul_checked, div_checked, add_checked, mul_opt, div_opt,
    add_opt,
};

verus! {

/// `a / b` to twelve decimals (in millionths of a fixed-point step),
/// rounded down; `None` where `b` is zero or the scaled dividend leaves
/// `u128`.
pub open spec fn fine_div(a: u128, b: u128) -> Option<u128> {
    if a * SCALE * SCALE <= u128::MAX && b > 0 {
        Some((a as int * SCALE as int * SCALE as int / b as int) as u128)
    } else {
        None
    }
}

fn fine_div_exec(a: u128, b: u128) -> (r: Option<u128>)
    ensures
        r == fine_div(a, b),
{
    if b == 0 {
        None
    } else {
        match a.checked_mul(SCALE * SCALE) {
            Some(p) => {
                assert(p == a * SCALE * SCALE);
                Some(p / b)
            },
            None => None,
        }
    }
}

/// Utilisation of a cross-section under axial force and biaxial bending
/// (6.2): `N_Ed / N_Rd + M_y,Ed / M_y,Rd + M_z,Ed / M_z,Rd`. Each term is
/// taken to twelve decimals and the sum rounded to the nearest fixed-point
/// step.
pub open spec fn util_6_2(
    n_ed: u128,
    my_ed: u128,
    mz_ed: u128,
    n_rd: u128,
    my_rd: u128,
    mz_rd: u128,
) -> Option<u128> {
    match add_checked(
        add_checked(fine_div(n_ed, n_rd), fine_div(my_ed, my_rd)),
        fine_div(mz_ed, mz_rd),
    ) {
        Some(t) => if t + SCALE / 2 <= u128::MAX {
            Some(((t as int + SCALE as int / 2) / SCALE as int) as u128)
        } else {
            None
        },
        None => None,
    }
}

/// Design check 6.2 of a cross-section.
pub fn f_6_2(n_ed: u128, my_ed: u128, mz_ed: u128, n_rd: u128, my_rd: u128, mz_rd: u128) -> (r:
    Option<u128>)
    ensures
        r == util_6_2(n_ed, my_ed, mz_ed, n_rd, my_rd, mz_rd),
{
    let t = add_opt(
        add_opt(fine_div_exec(n_ed, n_rd), fine_div_exec(my_ed, my_rd)),
        fine_div_exec(mz_ed, mz_rd),
    );
    match t {
        Some(t) => match t.checked_add(SCALE / 2) {
            Some(h) => Some(h / SCALE),
            None => None,
        },
        None => None,
    }
}

/// The yield strength reduced for shear, `(1 − ρ) · f_y` (6.29); `None`
/// where `ρ > 1` or an operand is out of range.
pub open spec fn reduced_strength(fy: u128, rho: u128) -> Option<u128> {
    if rho <= SCALE {
        mul_checked(Some((SCALE - rho) as u128), Some(fy))
    } else {
        None
    }
}

/// The yield strength reduced for shear (6.29).
pub fn f_6_29(fy: u128, rho: u128) -> (r: Option<u128>)
    ensures
        r == reduced_strength(fy, rho),
{
    if rho <= SCALE {
        mul_opt(Some(SCALE - rho), Some(fy))
    } else {
        None
    }
}

/// Axial term of the buckling checks: `N_Ed / (χ · N_Rk / γ_M1)`.
pub open spec fn util_axial(n_ed: u128, khi: u128, n_rk: u128, gamma_1: u128) -> Option<u128> {
    div_checked(Some(n_ed), div_checked(mul_checked(Some(khi), Some(n_rk)), Some(gamma_1)))
}

/// Moment term of the buckling checks:
/// `k · (M_Ed + ΔM_Ed) / (χ_LT · M_Rk / γ_M1)`.
pub open spec fn util_moment(
    m_ed: u128,
    delta_m_ed: u128,
    m_rk: u128,
    k: u128,
    khi_lt: u128,
    gamma_1: u128,
) -> Option<u128> {
    mul_checked(
        Some(k),
        div_checked(
            add_checked(Some(m_ed), Some(delta_m_ed)),
            mul_checked(Some(khi_lt), div_checked(Some(m_rk), Some(gamma_1))),
        ),
    )
}

fn util_axial_exec(n_ed: u128, khi: u128, n_rk: u128, gamma_1: u128) -> (r: Option<u128>)
    ensures
        r == util_axial(n_ed, khi, n_rk, gamma_1),
{
    div_opt(Some(n_ed), div_opt(mul_opt(Some(khi), Some(n_rk)), Some(gamma_1)))
}

fn util_moment_exec(
    m_ed: u128,
    delta_m_ed: u128,
    m_rk: u128,
    k: u128,
    khi_lt: u128,
    gamma_1: u128,
) -> (r: Option<u128>)
    ensures
        r == util_moment(m_ed, delta_m_ed, m_rk, k, khi_lt, gamma_1),
{
    mul_opt(
        Some(k),
        div_opt(
            add_opt(Some(m_ed), Some(delta_m_ed)),
            mul_opt(Some(khi_lt), div_opt(Some(m_rk), Some(gamma_1))),
        ),
    )
}

/// Sum of the three terms of a buckling check (6.61, 6.62).
pub open spec fn util_sum(util_n: u128, util_my: u128, util_mz: u128) -> Option<u128> {
    add_checked(add_checked(Some(util_n), Some(util_my)), Some(util_mz))
}

/// Design check 6.61: the sum of its axial and moment terms.
pub fn f_6_61(util_n: u128, util_my: u128, util_mz: u128) -> (r: Option<u128>)
    ensures
        r == util_sum(util_n, util_my, util_mz),
{
    add_opt(add_opt(Some(util_n), Some(util_my)), Some(util_mz))
}

/// Axial term of check 6.61, with χ_y.
pub fn f_6_61_util_n(n_ed: u128, ksi_y: u128, n_rk: u128, gamma_1: u128) -> (r: Option<u128>)
    ensures
        r == util_axial(n_ed, ksi_y, n_rk, gamma_1),
{
    util_axial_exec(n_ed, ksi_y, n_rk, gamma_1)
}

/// Major-axis moment term of check 6.61, with k_yy.
pub fn f_6_61_util_my(
    my_ed: u128,
    delta_my_ed: u128,
    my_rk: u128,
    k_yy: u128,
    khi_lt: u128,
    gamma_1: u128,
) -> (r: Option<u128>)
    ensures
        r == util_moment(my_ed, delta_my_ed, my_rk, k_yy, khi_lt, gamma_1),
{
    util_moment_exec(my_ed, delta_my_ed, my_rk, k_yy, khi_lt, gamma_1)
}

/// Minor-axis moment term of check 6.61, with k_yz (no lateral-torsional
/// reduction about the minor axis).
pub fn f_6_61_util_mz(mz_ed: u128, delta_mz_ed: u128, mz_rk: u128, k_yz: u128, gamma_1: u128) -> (r:
    Option<u128>)
    ensures
        r == util_moment(mz_ed, delta_mz_ed, mz_rk, k_yz, SCALE, gamma_1),
{
    util_moment_exec(mz_ed, delta_mz_ed, mz_rk, k_yz, SCALE, gamma_1)
}

/// Design check 6.62: the sum of its axial and moment terms.
pub fn f_6_62(util_n: u128, util_my: u128, util_mz: u128) -> (r: Option<u128>)
    ensures
        r == util_sum(util_n, util_my, util_mz),
{
    add_opt(add_opt(Some(util_n), Some(util_my)), Some(util_mz))
}

/// Axial term of check 6.62, with χ_z.
pub fn f_6_62_util_n(n_ed: u128, ksi_z: u128, n_rk: u128, gamma_1: u128) -> (r: Option<u128>)
    ensures
        r == util_axial(n_ed, ksi_z, n_rk, gamma_1),
{
    util_axial_exec(n_ed, ksi_z, n_rk, gamma_1)
}

/// Major-axis moment term of check 6.62, with k_zy.
pub fn f_6_62_util_my(
    my_ed: u128,
    delta_my_ed: u128,
    my_rk: u128,
    k_zy: u128,
    khi_lt: u128,
    gamma_1: u128,
) -> (r: Option<u128>)
    ensures
        r == util_moment(my_ed, delta_my_ed, my_rk, k_zy, khi_lt, gamma_1),
{
    util_moment_exec(my_ed, delta_my_ed, my_rk, k_zy, khi_lt, gamma_1)
}

/// Minor-axis moment term of check 6.62, with k_zz.
pub fn f_6_62_util_mz(mz_ed: u128, delta_mz_ed: u128, mz_rk: u128, k_zz: u128, gamma_1: u128) -> (r:
    Option<u128>)
    ensures
        r == util_moment(mz_ed, delta_mz_ed, mz_rk, k_zz, SCALE, gamma_1),
{
    util_moment_exec(mz_ed, delta_mz_ed, mz_rk, k_zz, SCALE, gamma_1)
}

/// `max(0, g − f)` of two optional values.
pub open spec fn sub_at_zero(g: Option<u128>, f: Option<u128>) -> Option<u128> {
    match (g, f) {
        (Some(x), Some(y)) => Some(if x >= y { (x - y) as u128 } else { 0 }),
        _ => None,
    }
}

/// The smaller of two optional values.
pub open spec fn min_of(a: Option<u128>, b: Option<u128>) -> Option<u128> {
    match (a, b) {
        (Some(x), Some(y)) => Some(if x <= y { x } else { y }),
        _ => None,
    }
}

/// An interaction factor of Table B.1:
/// `C_m · (1 + (a · λ̄ − c) · ū)`, not below zero and at most
/// `C_m · (1 + b · ū)`.
pub open spec fn k_factor(cm: u128, lambda: u128, u: u128, a: u128, c: u128, b: u128) -> Option<
    u128,
> {
    let rise = mul_checked(mul_checked(Some(a), Some(lambda)), Some(u));
    let fall = mul_checked(Some(c), Some(u));
    let inner = sub_at_zero(add_checked(Some(SCALE), rise), fall);
    let cap = add_checked(Some(SCALE), mul_checked(Some(b), Some(u)));
    min_of(mul_checked(Some(cm), inner), mul_checked(Some(cm), cap))
}

fn k_factor_exec(cm: u128, lambda: u128, u: u128, a: u128, c: u128, b: u128) -> (r: Option<u128>)
    ensures
        r == k_factor(cm, lambda, u, a, c, b),
{
    let rise = mul_opt(mul_opt(Some(a), Some(lambda)), Some(u));
    let fall = mul_opt(Some(c), Some(u));
    let grow = add_opt(Some(SCALE), rise);
    let inner = match (grow, fall) {
        (Some(x), Some(y)) => Some(
            if x >= y {
                x - y
            } else {
                0
            },
        ),
        _ => None,
    };
    let cap = add_opt(Some(SCALE), mul_opt(Some(b), Some(u)));
    match (mul_opt(Some(cm), inner), mul_opt(Some(cm), cap)) {
        (Some(x), Some(y)) => Some(
            if x <= y {
                x
            } else {
                y
            },
        ),
        _ => None,
    }
}

/// The interaction factors k_yy, k_yz, k_zy, k_zz of Annex B.
#[allow(non_camel_case_types)]
#[derive(Clone, Copy, Debug, PartialEq, Eq, Structural)]
pub struct TableB_1 {
    pub k_yy: u128,
    pub k_yz: u128,
    pub k_zy: u128,
    pub k_zz: u128,
}

/// k_zz of a class 1 or 2 section: the open-section (I-shape) formula or
/// the closed-section (hollow) formula.
pub open spec fn k_zz_plastic(open_shape: bool, c_mz: u128, lambda_z: u128, util_z: u128) -> Option<
    u128,
> {
    if open_shape {
        k_factor(c_mz, lambda_z, util_z, 2_000_000, 600_000, 1_400_000)
    } else {
        k_factor(c_mz, lambda_z, util_z, 1_000_000, 200_000, 800_000)
    }
}

/// The factors of Table B.1 for a cross-section of the given class and
/// shape, from the equivalent uniform moment factors, the slenderness and
/// the axial utilisation (`N_Ed / (χ · N_Rk / γ_M1)`) about each axis.
pub open spec fn table_b1(
    class: CrossSectionClass,
    open_shape: bool,
    c_my: u128,
    c_mz: u128,
    lambda_y: u128,
    lambda_z: u128,
    util_y: u128,
    util_z: u128,
) -> Option<TableB_1> {
    match class {
        CrossSectionClass::Three | CrossSectionClass::Four => {
            let k_yy = k_factor(c_my, lambda_y, util_y, 600_000, 0, 600_000);
            let k_zz = k_factor(c_mz, lambda_z, util_z, 600_000, 0, 600_000);
            let k_zy = mul_checked(Some(800_000), k_yy);
            match (k_yy, k_zz, k_zy) {
                (Some(yy), Some(zz), Some(zy)) => Some(
                    TableB_1 { k_yy: yy, k_yz: zz, k_zy: zy, k_zz: zz },
                ),
                _ => None,
            }
        },
        CrossSectionClass::One | CrossSectionClass::Two => {
            let k_yy = k_factor(c_my, lambda_y, util_y, 1_000_000, 200_000, 800_000);
            let k_zz = k_zz_plastic(open_shape, c_mz, lambda_z, util_z);
            let k_yz = mul_checked(Some(600_000), k_zz);
            let k_zy = mul_checked(Some(600_000), k_yy);
            match (k_yy, k_zz, k_yz, k_zy) {
                (Some(yy), Some(zz), Some(yz), Some(zy)) => Some(
                    TableB_1 { k_yy: yy, k_yz: yz, k_zy: zy, k_zz: zz },
                ),
                _ => None,
            }
        },
    }
}

impl TableB_1 {
    /// The interaction factors for a cross-section of class `class`, open
    /// (I-shape) or closed, from `C_my`, `C_mz`, `λ̄_y`, `λ̄_z` and the axial
    /// utilisations about each axis.
    pub fn from_factors(
        class: CrossSectionClass,
        open_shape: bool,
        c_my: u128,
        c_mz: u128,
        lambda_y: u128,
        lambda_z: u128,
        util_y: u128,
        util_z: u128,
    ) -> (r: Option<Self>)
        ensures
            r == table_b1(class, open_shape, c_my, c_mz, lambda_y, lambda_z, util_y, util_z),
    {
        match class {
            CrossSectionClass::Three | CrossSectionClass::Four => {
                let k_yy = k_factor_exec(c_my, lambda_y, util_y, 600_000, 0, 600_000);
                let k_zz = k_factor_exec(c_mz, lambda_z, util_z, 600_000, 0, 600_000);
                let k_zy = mul_opt(Some(800_000), k_yy);
                match (k_yy, k_zz, k_zy) {
                    (Some(yy), Some(zz), Some(zy)) => Some(
                        TableB_1 { k_yy: yy, k_yz: zz, k_zy: zy, k_zz: zz },
                    ),
                    _ => None,
                }
            },
            CrossSectionClass::One | CrossSectionClass::Two => {
                let k_yy = k_factor_exec(c_my, lambda_y, util_y, 1_000_000, 200_000, 800_000);
                let k_zz = if open_shape {
                    k_factor_exec(c_mz, lambda_z, util_z, 2_000_000, 600_000, 1_400_000)
                } else {
                    k_factor_exec(c_mz, lambda_z, util_z, 1_000_000, 200_000, 800_000)
                };
                let k_yz = mul_opt(Some(600_000), k_zz);
                let k_zy = mul_opt(Some(600_000), k_yy);
                match (k_yy, k_zz, k_yz, k_zy) {
                    (Some(yy), Some(zz), Some(yz), Some(zy)) => Some(
                        TableB_1 { k_yy: yy, k_yz: yz, k_zy: zy, k_zz: zz },
                    ),
                    _ => None,
                }
            },
        }
    }
}

/// Bound on the inputs of Table B.1 under which its factors are always
/// defined: a hundred thousand in real units.
pub open spec fn factor_in_bounds(x: u128) -> bool {
    x <= 100_000_000_000
}

/// The value of an interaction factor, in integers.
pub open spec fn k_value(cm: int, lambda: int, u: int, a: int, c: int, b: int) -> int {
    let grow = SCALE as int + fx_mul(fx_mul(a, lambda), u);
    let fall = fx_mul(c, u);
    let inner = if grow >= fall { grow - fall } else { 0 };
    let cap = SCALE as int + fx_mul(b, u);
    let x = fx_mul(cm, inner);
    let y = fx_mul(cm, cap);
    if x <= y { x } else { y }
}

/// Every factor of Table B.1 is defined for inputs within bounds.
proof fn lemma_k_factor_defined(cm: u128, lambda: u128, u: u128, a: u128, c: u128, b: u128)
    requires
        factor_in_bounds(cm),
        factor_in_bounds(lambda),
        factor_in_bounds(u),
        a <= 2_000_000,
        c <= 2_000_000,
        b <= 2_000_000,
    ensures
        k_factor(cm, lambda, u, a, c, b) == Some(
            k_value(cm as int, lambda as int, u as int, a as int, c as int, b as int) as u128,
        ),
        0 <= k_value(cm as int, lambda as int, u as int, a as int, c as int, b as int) <= LIMIT,
{
    let al = fx_mul(a as int, lambda as int);
    assert(0 <= al <= 200_000_000_000) by (nonlinear_arith)
        requires
            al == a as int * lambda as int / 1_000_000,
            0 <= a <= 2_000_000,
            0 <= lambda <= 100_000_000_000,
    ;
    let rise = fx_mul(al, u as int);
    assert(0 <= rise <= 20_000_000_000_000_000) by (nonlinear_arith)
        requires
            rise == al * u as int / 1_000_000,
            0 <= al <= 200_000_000_000,
            0 <= u <= 100_000_000_000,
    ;
    let fall = fx_mul(c as int, u as int);
    assert(0 <= fall <= 200_000_000_000) by (nonlinear_arith)
        requires
            fall == c as int * u as int / 1_000_000,
            0 <= c <= 2_000_000,
            0 <= u <= 100_000_000_000,
    ;
    let bu = fx_mul(b as int, u as int);
    assert(0 <= bu <= 200_000_000_000) by (nonlinear_arith)
        requires
            bu == b as int * u as int / 1_000_000,
            0 <= b <= 2_000_000,
            0 <= u <= 100_000_000_000,
    ;
    let grow = 1_000_000 + rise;
    let inner = if grow >= fall { grow - fall } else { 0 };
    let cap = 1_000_000 + bu;
    let x = fx_mul(cm as int, inner);
    let y = fx_mul(cm as int, cap);
    assert(0 <= x <= 3_000_000_000_000_000_000_000 && 0 <= y <= 30_000_000_000_000_000) by (nonlinear_arith)
        requires
            x == cm as int * inner / 1_000_000,
            y == cm as int * cap / 1_000_000,
            0 <= cm <= 100_000_000_000,
            0 <= inner <= 1_000_000 + 20_000_000_000_000_000,
            0 <= cap <= 1_000_000 + 200_000_000_000,
    ;
}

/// For a class 1 or 2 section the factor k_zz depends on the shape: where
/// `λ̄_z ≥ 1`, `C_mz ≥ 0.1` and `ū_z ≥ 0.0001`, the open-section formula
/// gives a larger k_zz than the closed-section formula on the same inputs.
pub proof fn lemma_k_zz_open_differs_from_closed(
    class: CrossSectionClass,
    c_my: u128,
    c_mz: u128,
    lambda_y: u128,
    lambda_z: u128,
    util_y: u128,
    util_z: u128,
)
    requires
        class == CrossSectionClass::One || class == CrossSectionClass::Two,
        factor_in_bounds(c_my),
        factor_in_bounds(c_mz),
        factor_in_bounds(lambda_y),
        factor_in_bounds(lambda_z),
        factor_in_bounds(util_y),
        factor_in_bounds(util_z),
        c_mz >= 100_000,
        lambda_z >= SCALE,
        util_z >= 100,
    ensures
        table_b1(class, true, c_my, c_mz, lambda_y, lambda_z, util_y, util_z) is Some,
        table_b1(class, false, c_my, c_mz, lambda_y, lambda_z, util_y, util_z) is Some,
        table_b1(class, true, c_my, c_mz, lambda_y, lambda_z, util_y, util_z)->0.k_zz
            > table_b1(class, false, c_my, c_mz, lambda_y, lambda_z, util_y, util_z)->0.k_zz,
{
    lemma_k_factor_defined(c_my, lambda_y, util_y, 1_000_000, 200_000, 800_000);
    lemma_k_factor_defined(c_mz, lambda_z, util_z, 2_000_000, 600_000, 1_400_000);
    lemma_k_factor_defined(c_mz, lambda_z, util_z, 1_000_000, 200_000, 800_000);
    let cm = c_mz as int;
    let l = lambda_z as int;
    let u = util_z as int;
    // open section
    let al_o = fx_mul(2_000_000, l);
    assert(al_o == 2 * l) by (nonlinear_arith)
        requires
            al_o == 2_000_000 * l / 1_000_000,
    ;
    let rise_o = fx_mul(al_o, u);
    assert(rise_o >= 2 * u) by (nonlinear_arith)
        requires
            rise_o == al_o * u / 1_000_000,
            al_o == 2 * l,
            l >= 1_000_000,
            u >= 0,
    ;
    let fall_o = fx_mul(600_000, u);
    assert(10 * fall_o <= 6 * u) by (nonlinear_arith)
        requires
            fall_o == 600_000 * u / 1_000_000,
            u >= 0,
    ;
    let cap_o = 1_000_000 + fx_mul(1_400_000, u);
    assert(10 * cap_o >= 10_000_000 + 14 * u - 10) by (nonlinear_arith)
        requires
            cap_o == 1_000_000 + 1_400_000 * u / 1_000_000,
            u >= 0,
    ;
    let inner_o = 1_000_000 + rise_o - fall_o;
    // closed section
    let cap_c = 1_000_000 + fx_mul(800_000, u);
    assert(10 * cap_c <= 10_000_000 + 8 * u) by (nonlinear_arith)
        requires
            cap_c == 1_000_000 + 800_000 * u / 1_000_000,
            u >= 0,
    ;
    assert(inner_o >= cap_c + 59 && cap_o >= cap_c + 59);
    let k_c_cap = fx_mul(cm, cap_c);
    assert(fx_mul(cm, inner_o) > k_c_cap) by (nonlinear_arith)
        requires
            k_c_cap == cm * cap_c / 1_000_000,
            inner_o >= cap_c + 59,
            cm >= 100_000,
            cap_c >= 0,
    ;
    assert(fx_mul(cm, cap_o) > k_c_cap) by (nonlinear_arith)
        requires
            k_c_cap == cm * cap_c / 1_000_000,
            cap_o >= cap_c + 59,
            cm >= 100_000,
            cap_c >= 0,
    ;
    let ko = k_value(cm, l, u, 2_000_000, 600_000, 1_400_000);
    let kc = k_value(cm, l, u, 1_000_000, 200_000, 800_000);
    assert(ko > kc);
}

/// For a class 1 or 2 section at low slenderness the factor k_zz depends on
/// the shape too: where `λ̄_z ≤ 0.3`, `C_mz ≥ 0.1` and
/// `0.001 ≤ ū_z ≤ 1`, the closed-section formula gives a larger k_zz than
/// the open-section formula on the same inputs. (At `λ̄_z = 0.4` the two
/// formulas coincide below their caps.)
pub proof fn lemma_k_zz_closed_exceeds_open_at_low_slenderness(
    class: CrossSectionClass,
    c_my: u128,
    c_mz: u128,
    lambda_y: u128,
    lambda_z: u128,
    util_y: u128,
    util_z: u128,
)
    requires
        class == CrossSectionClass::One || class == CrossSectionClass::Two,
        factor_in_bounds(c_my),
        factor_in_bounds(c_mz),
        factor_in_bounds(lambda_y),
        factor_in_bounds(util_y),
        c_mz >= 100_000,
        lambda_z <= 300_000,
        1000 <= util_z <= SCALE,
    ensures
        table_b1(class, true, c_my, c_mz, lambda_y, lambda_z, util_y, util_z) is Some,
        table_b1(class, false, c_my, c_mz, lambda_y, lambda_z, util_y, util_z) is Some,
        table_b1(class, true, c_my, c_mz, lambda_y, lambda_z, util_y, util_z)->0.k_zz
            < table_b1(class, false, c_my, c_mz, lambda_y, lambda_z, util_y, util_z)->0.k_zz,
{
    lemma_k_factor_defined(c_my, lambda_y, util_y, 1_000_000, 200_000, 800_000);
    lemma_k_factor_defined(c_mz, lambda_z, util_z, 2_000_000, 600_000, 1_400_000);
    lemma_k_factor_defined(c_mz, lambda_z, util_z, 1_000_000, 200_000, 800_000);
    let cm = c_mz as int;
    let l = lambda_z as int;
    let u = util_z as int;
    // open section: inner value
    let al_o = fx_mul(2_000_000, l);
    assert(al_o == 2 * l) by (nonlinear_arith)
        requires
            al_o == 2_000_000 * l / 1_000_000,
    ;
    let rise_o = fx_mul(al_o, u);
    assert(1_000_000 * rise_o <= 2 * l * u && 0 <= rise_o) by (nonlinear_arith)
        requires
            rise_o == al_o * u / 1_000_000,
            al_o == 2 * l,
            l >= 0,
            u >= 0,
    ;
    assert(10 * rise_o <= 6 * u) by (nonlinear_arith)
        requires
            1_000_000 * rise_o <= 2 * l * u,
            0 <= l <= 300_000,
            u >= 0,
    ;
    let fall_o = fx_mul(600_000, u);
    assert(10 * fall_o >= 6 * u - 10) by (nonlinear_arith)
        requires
            fall_o == 600_000 * u / 1_000_000,
            u >= 0,
    ;
    let grow_o = 1_000_000 + rise_o;
    let inner_o = if grow_o >= fall_o { grow_o - fall_o } else { 0 };
    // closed section: inner value and cap
    let al_c = fx_mul(1_000_000, l);
    assert(al_c == l) by (nonlinear_arith)
        requires
            al_c == 1_000_000 * l / 1_000_000,
    ;
    let rise_c = fx_mul(al_c, u);
    assert(1_000_000 * rise_c >= l * u - 1_000_000 && 1_000_000 * rise_c <= l * u) by (nonlinear_arith)
        requires
            rise_c == al_c * u / 1_000_000,
            al_c == l,
            l >= 0,
            u >= 0,
    ;
    let fall_c = fx_mul(200_000, u);
    assert(10 * fall_c <= 2 * u && 10 * fall_c >= 2 * u - 10) by (nonlinear_arith)
        requires
            fall_c == 200_000 * u / 1_000_000,
            u >= 0,
    ;
    let grow_c = 1_000_000 + rise_c;
    assert(grow_c >= fall_c);
    let inner_c = grow_c - fall_c;
    let cap_c = 1_000_000 + fx_mul(800_000, u);
    assert(10 * cap_c >= 10_000_000 + 8 * u - 10) by (nonlinear_arith)
        requires
            cap_c == 1_000_000 + 800_000 * u / 1_000_000,
            u >= 0,
    ;
    assert(1_000_000 * (inner_c - inner_o) >= 400_000 * u - l * u - 2_000_000) by (nonlinear_arith)
        requires
            inner_o == if 1_000_000 + rise_o >= fall_o { 1_000_000 + rise_o - fall_o } else { 0 },
            inner_c == 1_000_000 + rise_c - fall_c,
            1_000_000 * rise_o <= 2 * l * u,
            10 * fall_o >= 6 * u - 10,
            1_000_000 * rise_c >= l * u - 1_000_000,
            10 * fall_c <= 2 * u,
            0 <= l <= 300_000,
            1000 <= u <= 1_000_000,
            rise_o >= 0,
    ;
    assert(inner_c >= inner_o + 98) by (nonlinear_arith)
        requires
            1_000_000 * (inner_c - inner_o) >= 400_000 * u - l * u - 2_000_000,
            0 <= l <= 300_000,
            1000 <= u,
    ;
    assert(inner_c <= cap_c) by (nonlinear_arith)
        requires
            inner_c == 1_000_000 + rise_c - fall_c,
            1_000_000 * rise_c <= l * u,
            10 * fall_c >= 2 * u - 10,
            10 * cap_c >= 10_000_000 + 8 * u - 10,
            0 <= l <= 300_000,
            1000 <= u <= 1_000_000,
    ;
    let x_c = fx_mul(cm, inner_c);
    let y_c = fx_mul(cm, cap_c);
    assert(x_c <= y_c) by (nonlinear_arith)
        requires
            x_c == cm * inner_c / 1_000_000,
            y_c == cm * cap_c / 1_000_000,
            0 <= inner_c <= cap_c,
            cm >= 0,
    ;
    let x_o = fx_mul(cm, inner_o);
    assert(x_o < x_c) by (nonlinear_arith)
        requires
            x_o == cm * inner_o / 1_000_000,
            x_c == cm * inner_c / 1_000_000,
            inner_c >= inner_o + 98,
            inner_o >= 0,
            cm >= 100_000,
    ;
    let ko = k_value(cm, l, u, 2_000_000, 600_000, 1_400_000);
    let kc = k_value(cm, l, u, 1_000_000, 200_000, 800_000);
    assert(kc == x_c);
    assert(ko <= x_o);
    assert(ko < kc);
}

} // verus!
