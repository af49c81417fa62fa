//! A steel member under axial force and bending: capacities, stiffnesses,
//! critical loads, buckling reduction factors and the design checks of
//! EN 1993-1-1.
//!
//! All real quantities are fixed-point values (see `fixed`) in N and mm. A
//! quantity that is not modelled for the shape or class gives
//! `Unsupported`; one whose arithmetic fails (a zero divisor, a value out of
//! range) gives `InvalidInput`.
use vstd::prelude::*;
use crate::{Axis, LimitStateType};
use crate::buckling::{BuckleCurve, LTBCurve, phi_of, chi_of, f_6_49, f_6_49_phi, f_6_49_lambda, f_6_56_lambda_lt, slenderness};
use crate::classify::{CrossSectionClass, CrossSectionClassCase};
use crate::err::{DesignError, checked, checked_exec};
use crate::fixed::{
    SCALE, LIMIT, in_range, fx_div, isqrt, isqrt_of, mul_checked, div_checked, sqrt_checked, mul_opt,
    div_opt, sqrt_opt,
};
use crate::interaction::{
    TableB_1, table_b1, util_6_2, f_6_2, util_axial, util_moment, util_sum, f_6_61, f_6_61_util_n,
    f_6_61_util_my, f_6_61_util_mz, f_6_62, f_6_62_util_n, f_6_62_util_my, f_6_62_util_mz,
};
use crate::material::Steel;
use crate::section::{CrossSection, CrsHEB, PI_NUM, PI_DEN};

verus! {

/// Standard gravity, fixed-point m/s².
pub const GRAVITY: u128 = 9_806_650;

/// `π · x`, rounded down; `None` where the product leaves `u128`.
pub open spec fn times_pi(o: Option<u128>) -> Option<u128> {
    match o {
        Some(x) => if x * PI_NUM <= u128::MAX {
            Some((x as int * PI_NUM as int / PI_DEN as int) as u128)
        } else {
            None
        },
        None => None,
    }
}

/// An integer times a fixed-point value; `None` where it leaves `u128`.
pub open spec fn scale_by(k: u128, o: Option<u128>) -> Option<u128> {
    match o {
        Some(x) => if k * x <= u128::MAX {
            Some((k * x) as u128)
        } else {
            None
        },
        None => None,
    }
}

fn times_pi_exec(o: Option<u128>) -> (r: Option<u128>)
    ensures
        r == times_pi(o),
{
    match o {
        Some(x) => match x.checked_mul(PI_NUM) {
            Some(p) => Some(p / PI_DEN),
            None => None,
        },
        None => None,
    }
}

fn scale_by_exec(k: u128, o: Option<u128>) -> (r: Option<u128>)
    ensures
        r == scale_by(k, o),
{
    match o {
        Some(x) => k.checked_mul(x),
        None => None,
    }
}

fn over_sqrt3_exec(o: Option<u128>) -> (r: Option<u128>)
    ensures
        r == ColumnBeam::over_sqrt3(o),
{
    let root = isqrt(3_000_000_000_000_000_000_000_000);
    assert(root > 0) by (nonlinear_arith)
        requires
            3_000_000_000_000_000_000_000_000 < (root + 1) * (root + 1),
            root >= 0,
    ;
    match o {
        Some(x) => match x.checked_mul(1_000_000_000_000) {
            Some(p) => Some(p / root),
            None => None,
        },
        None => None,
    }
}

/// The design forces on a member: axial force `N` (compression), torsional
/// moment `Mx` and bending moments `My`, `Mz`, as magnitudes in fixed-point
/// N and N·mm.
#[allow(non_snake_case)]
#[derive(Clone, Copy, Debug, PartialEq, Eq, Structural)]
pub struct LoadCase {
    pub N: u128,
    pub Mx: u128,
    pub My: u128,
    pub Mz: u128,
}

impl LoadCase {
    /// A load case with no forces.
    pub fn new() -> (r: Self)
        ensures
            r == (LoadCase { N: 0, Mx: 0, My: 0, Mz: 0 }),
    {
        LoadCase { N: 0, Mx: 0, My: 0, Mz: 0 }
    }

    /// A load case from forces in kN and moments in kN·m (fixed-point);
    /// `InvalidInput` where a converted value leaves `u128`.
    pub fn from_kn(n: u128, mx: u128, my: u128, mz: u128) -> (r: Result<Self, DesignError>)
        ensures
            (n * 1000 <= u128::MAX && mx * 1_000_000 <= u128::MAX && my * 1_000_000 <= u128::MAX
                && mz * 1_000_000 <= u128::MAX) ==> r == Ok::<Self, DesignError>(
                LoadCase {
                    N: (n * 1000) as u128,
                    Mx: (mx * 1_000_000) as u128,
                    My: (my * 1_000_000) as u128,
                    Mz: (mz * 1_000_000) as u128,
                },
            ),
            !(n * 1000 <= u128::MAX && mx * 1_000_000 <= u128::MAX && my * 1_000_000 <= u128::MAX
                && mz * 1_000_000 <= u128::MAX) ==> r == Err::<Self, DesignError>(
                DesignError::InvalidInput,
            ),
    {
        match (n.checked_mul(1000), mx.checked_mul(1_000_000), my.checked_mul(1_000_000), mz.checked_mul(1_000_000)) {
            (Some(n), Some(mx), Some(my), Some(mz)) => Ok(LoadCase { N: n, Mx: mx, My: my, Mz: mz }),
            _ => Err(DesignError::InvalidInput),
        }
    }
}

/// The section properties that the buckling checks use for a class (Table
/// 6.7): the area, the section moduli and the additional moments from a
/// shift of the centroid.
#[allow(non_snake_case)]
#[allow(non_camel_case_types)]
#[derive(Clone, Copy, Debug, PartialEq, Eq, Structural)]
pub struct Table6_7 {
    pub Ai: u128,
    pub Wy: u128,
    pub Wz: u128,
    pub delta_My_Ed: u128,
    pub delta_Mz_Ed: u128,
}

/// Table 6.7 for a section of a class: plastic moduli for classes 1 and 2,
/// elastic moduli for class 3, no additional moments; class 4 is not
/// modelled.
pub open spec fn table_6_7(crs: CrossSection, class: CrossSectionClass) -> Result<Table6_7, DesignError> {
    match class {
        CrossSectionClass::One | CrossSectionClass::Two => match (crs.w_pl_of(Axis::Y), crs.w_pl_of(Axis::Z)) {
            (Some(wy), Some(wz)) => Ok(Table6_7 { Ai: crs.area_of() as u128, Wy: wy as u128, Wz: wz as u128, delta_My_Ed: 0, delta_Mz_Ed: 0 }),
            _ => Err(DesignError::Unsupported),
        },
        CrossSectionClass::Three => match (crs.w_el_of(Axis::Y), crs.w_el_of(Axis::Z)) {
            (Some(wy), Some(wz)) => Ok(Table6_7 { Ai: crs.area_of() as u128, Wy: wy as u128, Wz: wz as u128, delta_My_Ed: 0, delta_Mz_Ed: 0 }),
            _ => Err(DesignError::Unsupported),
        },
        CrossSectionClass::Four => Err(DesignError::Unsupported),
    }
}

impl Table6_7 {
    /// Table 6.7 for a section of a class.
    pub fn from_crs_class(crs: &CrossSection, crs_class: &CrossSectionClass) -> (r: Result<Self, DesignError>)
        requires
            crs.wf(),
        ensures
            r == table_6_7(*crs, *crs_class),
    {
        match crs_class {
            CrossSectionClass::One | CrossSectionClass::Two => match (crs.w_pl(&Axis::Y), crs.w_pl(&Axis::Z)) {
                (Ok(wy), Ok(wz)) => Ok(Table6_7 { Ai: crs.area(), Wy: wy, Wz: wz, delta_My_Ed: 0, delta_Mz_Ed: 0 }),
                _ => Err(DesignError::Unsupported),
            },
            CrossSectionClass::Three => match (crs.w_el(&Axis::Y), crs.w_el(&Axis::Z)) {
                (Ok(wy), Ok(wz)) => Ok(Table6_7 { Ai: crs.area(), Wy: wy, Wz: wz, delta_My_Ed: 0, delta_Mz_Ed: 0 }),
                _ => Err(DesignError::Unsupported),
            },
            CrossSectionClass::Four => Err(DesignError::Unsupported),
        }
    }
}

/// A member: one cross-section of one steel.
#[derive(Clone, Copy, Debug)]
pub struct ColumnBeam {
    pub crs: CrossSection,
    pub mat: Steel,
}

impl ColumnBeam {
    /// Both the section and the steel are well formed.
    pub open spec fn wf(&self) -> bool {
        self.crs.wf() && self.mat.wf()
    }

    /// A member of the given section and steel.
    pub fn new(crs: CrossSection, mat: Steel) -> (r: Self)
        ensures
            r.crs == crs,
            r.mat == mat,
    {
        ColumnBeam { crs, mat }
    }

    /// Axial plastic resistance `f_y · A`.
    pub open spec fn n_pl_of(&self, ls: LimitStateType) -> Result<u128, DesignError> {
        checked(mul_checked(Some(self.mat.fy_at(ls) as u128), Some(self.crs.area_of() as u128)))
    }

    /// Axial plastic resistance `f_y · A` at a limit state, fixed-point N.
    #[allow(non_snake_case)]
    pub fn N_pl(&self, limit_state_type: &LimitStateType) -> (r: Result<u128, DesignError>)
        requires
            self.wf(),
        ensures
            r == self.n_pl_of(*limit_state_type),
    {
        checked_exec(mul_opt(Some(self.mat.f_y(limit_state_type)), Some(self.crs.area())))
    }

    /// `x / √3`, with `√3` to twelve decimals, rounded down; `None` where an
    /// intermediate leaves `u128`.
    pub open spec fn over_sqrt3(o: Option<u128>) -> Option<u128> {
        match o {
            Some(x) => if x * 1_000_000_000_000 <= u128::MAX {
                Some((x * 1_000_000_000_000 / isqrt_of(3_000_000_000_000_000_000_000_000)) as u128)
            } else {
                None
            },
            None => None,
        }
    }

    /// Shear plastic resistance `f_y · A_v / √3`.
    pub open spec fn v_pl_of(&self, axis: Axis, ls: LimitStateType) -> Result<u128, DesignError> {
        match self.crs.shear_area_of(axis) {
            Some(av) => checked(Self::over_sqrt3(mul_checked(Some(self.mat.fy_at(ls) as u128), Some(av as u128)))),
            None => Err(DesignError::Unsupported),
        }
    }

    /// Shear plastic resistance `f_y · A_v / √3` for shear along an axis,
    /// fixed-point N.
    #[allow(non_snake_case)]
    pub fn V_pl(&self, axis: &Axis, limit_state_type: &LimitStateType) -> (r: Result<u128, DesignError>)
        requires
            self.wf(),
        ensures
            r == self.v_pl_of(*axis, *limit_state_type),
    {
        match self.crs.area_shear(axis) {
            Ok(av) => checked_exec(over_sqrt3_exec(mul_opt(Some(self.mat.f_y(limit_state_type)), Some(av)))),
            Err(e) => Err(e),
        }
    }

    /// Elastic moment resistance `W_el · f_y`.
    pub open spec fn m_el_of(&self, axis: Axis, ls: LimitStateType) -> Result<u128, DesignError> {
        match self.crs.w_el_of(axis) {
            Some(w) => checked(mul_checked(Some(w as u128), Some(self.mat.fy_at(ls) as u128))),
            None => Err(DesignError::Unsupported),
        }
    }

    /// Elastic moment resistance `W_el · f_y` about an axis, fixed-point N·mm.
    #[allow(non_snake_case)]
    pub fn M_el(&self, axis: &Axis, limit_state_type: &LimitStateType) -> (r: Result<u128, DesignError>)
        requires
            self.wf(),
        ensures
            r == self.m_el_of(*axis, *limit_state_type),
    {
        match self.crs.w_el(axis) {
            Ok(w) => checked_exec(mul_opt(Some(w), Some(self.mat.f_y(limit_state_type)))),
            Err(e) => Err(e),
        }
    }

    /// Plastic moment resistance `W_pl · f_y`.
    pub open spec fn m_pl_of(&self, axis: Axis, ls: LimitStateType) -> Result<u128, DesignError> {
        match self.crs.w_pl_of(axis) {
            Some(w) => checked(mul_checked(Some(w as u128), Some(self.mat.fy_at(ls) as u128))),
            None => Err(DesignError::Unsupported),
        }
    }

    /// Plastic moment resistance `W_pl · f_y` about an axis, fixed-point N·mm.
    #[allow(non_snake_case)]
    pub fn M_pl(&self, axis: &Axis, limit_state_type: &LimitStateType) -> (r: Result<u128, DesignError>)
        requires
            self.wf(),
        ensures
            r == self.m_pl_of(*axis, *limit_state_type),
    {
        match self.crs.w_pl(axis) {
            Ok(w) => checked_exec(mul_opt(Some(w), Some(self.mat.f_y(limit_state_type)))),
            Err(e) => Err(e),
        }
    }

    /// Axial stiffness `E · A`.
    pub open spec fn ea_of(&self) -> Result<u128, DesignError> {
        checked(scale_by(self.mat.youngs_modulus as u128, Some(self.crs.area_of() as u128)))
    }

    /// Axial stiffness `E · A`, fixed-point N.
    #[allow(non_snake_case)]
    pub fn EA(&self) -> (r: Result<u128, DesignError>)
        requires
            self.wf(),
        ensures
            r == self.ea_of(),
    {
        checked_exec(scale_by_exec(self.mat.youngs_modulus as u128, Some(self.crs.area())))
    }

    /// Flexural stiffness `E · I`.
    pub open spec fn ei_of(&self, axis: Axis) -> Result<u128, DesignError> {
        match self.crs.inertia_of(axis) {
            Some(i) => checked(scale_by(self.mat.youngs_modulus as u128, Some(i as u128))),
            None => Err(DesignError::Unsupported),
        }
    }

    /// Flexural stiffness `E · I` about an axis, fixed-point N·mm².
    #[allow(non_snake_case)]
    pub fn EI(&self, axis: &Axis) -> (r: Result<u128, DesignError>)
        requires
            self.wf(),
        ensures
            r == self.ei_of(*axis),
    {
        match self.crs.inertia(axis) {
            Ok(i) => checked_exec(scale_by_exec(self.mat.youngs_modulus as u128, Some(i))),
            Err(e) => Err(e),
        }
    }

    /// The shear modulus `G = E / (2 · (1 + ν))`.
    pub open spec fn g_of(&self) -> int {
        fx_div(self.mat.youngs_modulus * SCALE, 2 * (SCALE + self.mat.poisson_ratio))
    }

    /// Torsional stiffness `G · I`.
    pub open spec fn gi_of(&self, axis: Axis) -> Result<u128, DesignError> {
        match self.crs.inertia_of(axis) {
            Some(i) => checked(mul_checked(Some(self.g_of() as u128), Some(i as u128))),
            None => Err(DesignError::Unsupported),
        }
    }

    /// Stiffness `G · I` about an axis (torsional about `X`), fixed-point
    /// N·mm²; `Unsupported` where the section does not model that inertia.
    #[allow(non_snake_case)]
    pub fn GI(&self, axis: &Axis) -> (r: Result<u128, DesignError>)
        requires
            self.wf(),
        ensures
            r == self.gi_of(*axis),
    {
        match self.crs.inertia(axis) {
            Ok(i) => checked_exec(mul_opt(Some(self.mat.shear_modulus()), Some(i))),
            Err(e) => Err(e),
        }
    }

    /// The Euler load `N_cr = π² · E · I / L_k²`.
    pub open spec fn euler_load_of(&self, lk: u128, axis: Axis) -> Result<u128, DesignError> {
        match self.ei_of(axis) {
            Ok(ei) => checked(times_pi(times_pi(div_checked(div_checked(Some(ei), Some(lk)), Some(lk))))),
            Err(e) => Err(e),
        }
    }

    /// The elastic critical (Euler) load for buckling about an axis with
    /// buckling length `lk` (fixed-point mm), fixed-point N.
    pub fn euler_load(&self, lk: u128, axis: &Axis) -> (r: Result<u128, DesignError>)
        requires
            self.wf(),
        ensures
            r == self.euler_load_of(lk, *axis),
    {
        match self.EI(axis) {
            Ok(ei) => checked_exec(times_pi_exec(times_pi_exec(div_opt(div_opt(Some(ei), Some(lk)), Some(lk))))),
            Err(e) => Err(e),
        }
    }

    /// The elastic critical moment of lateral-torsional buckling for a
    /// uniform moment, `M_0,cr = (π / L) · √(G · I_t · E · I_z)`.
    pub open spec fn m_0_cr_of(&self, length: u128) -> Result<u128, DesignError> {
        match (self.gi_of(Axis::X), self.ei_of(Axis::Z)) {
            (Ok(gi), Ok(ei)) => checked(times_pi(div_checked(mul_checked(sqrt_checked(Some(gi)), sqrt_checked(Some(ei))), Some(length)))),
            (Err(e), _) => Err(e),
            (_, Err(e)) => Err(e),
        }
    }

    /// The elastic critical moment for a uniform moment over a length
    /// `length` (fixed-point mm), fixed-point N·mm.
    #[allow(non_snake_case)]
    pub fn M_0_cr(&self, length: u128) -> (r: Result<u128, DesignError>)
        requires
            self.wf(),
        ensures
            r == self.m_0_cr_of(length),
    {
        match (self.GI(&Axis::X), self.EI(&Axis::Z)) {
            (Ok(gi), Ok(ei)) => checked_exec(times_pi_exec(div_opt(mul_opt(sqrt_opt(Some(gi)), sqrt_opt(Some(ei))), Some(length)))),
            (Err(e), _) => Err(e),
            (_, Err(e)) => Err(e),
        }
    }

    /// The elastic critical moment `M_cr = μ_cr · M_0,cr`.
    pub open spec fn m_cr_of(&self, length: u128, mu_cr: u128) -> Result<u128, DesignError> {
        match self.m_0_cr_of(length) {
            Ok(m) => checked(mul_checked(Some(m), Some(mu_cr))),
            Err(e) => Err(e),
        }
    }

    /// The elastic critical moment with the correction factor `mu_cr` for
    /// the load and support conditions, fixed-point N·mm.
    #[allow(non_snake_case)]
    pub fn M_cr(&self, length: u128, mu_cr: u128) -> (r: Result<u128, DesignError>)
        requires
            self.wf(),
        ensures
            r == self.m_cr_of(length, mu_cr),
    {
        match self.M_0_cr(length) {
            Ok(m) => checked_exec(mul_opt(Some(m), Some(mu_cr))),
            Err(e) => Err(e),
        }
    }

    /// The flexural slenderness `λ̄ = √(A · f_y / N_cr)`, with the
    /// characteristic yield strength.
    pub open spec fn lambda_of(&self, n_cr: u128) -> Result<u128, DesignError> {
        slenderness(self.crs.area_of() as u128, self.mat.fy_at(LimitStateType::K) as u128, n_cr)
    }

    /// The flexural slenderness for a critical load `n_cr`, fixed-point.
    pub fn lambda(&self, n_cr: u128) -> (r: Result<u128, DesignError>)
        requires
            self.wf(),
        ensures
            r == self.lambda_of(n_cr),
    {
        f_6_49_lambda(self.crs.area(), self.mat.f_y(&LimitStateType::K), n_cr)
    }

    /// The class of the section under a stress case, in the member's steel.
    pub open spec fn class_of(&self, case: CrossSectionClassCase) -> Result<CrossSectionClass, DesignError> {
        match self.crs.class_of(self.mat.fy, case) {
            Some(c) => Ok(c),
            None => Err(DesignError::Unsupported),
        }
    }

    /// The class of the section under a stress case, in the member's steel.
    pub fn cross_section_class(&self, case: &CrossSectionClassCase) -> (r: Result<CrossSectionClass, DesignError>)
        requires
            self.wf(),
        ensures
            r == self.class_of(*case),
    {
        self.crs.cross_section_class(self.mat.fy, case)
    }

    /// The section modulus `W_y` for lateral-torsional buckling, chosen by
    /// the class of the web in compression.
    pub open spec fn w_y_of(&self) -> Result<u128, DesignError> {
        match self.class_of(CrossSectionClassCase::WebCompression) {
            Ok(CrossSectionClass::One) | Ok(CrossSectionClass::Two) => match self.crs.w_pl_of(Axis::Y) {
                Some(w) => Ok(w as u128),
                None => Err(DesignError::Unsupported),
            },
            Ok(CrossSectionClass::Three) => match self.crs.w_el_of(Axis::Y) {
                Some(w) => Ok(w as u128),
                None => Err(DesignError::Unsupported),
            },
            Ok(CrossSectionClass::Four) => Err(DesignError::Unsupported),
            Err(e) => Err(e),
        }
    }

    fn w_y(&self) -> (r: Result<u128, DesignError>)
        requires
            self.wf(),
        ensures
            r == self.w_y_of(),
    {
        match self.cross_section_class(&CrossSectionClassCase::WebCompression) {
            Ok(CrossSectionClass::One) | Ok(CrossSectionClass::Two) => self.crs.w_pl(&Axis::Y),
            Ok(CrossSectionClass::Three) => self.crs.w_el(&Axis::Y),
            Ok(CrossSectionClass::Four) => self.crs.w_eff(&Axis::Y),
            Err(e) => Err(e),
        }
    }

    /// The slenderness for lateral-torsional buckling
    /// `λ̄_LT = √(W_y · f_y / M_cr)`.
    pub open spec fn lambda_lt_of(&self, m_cr: u128) -> Result<u128, DesignError> {
        match self.w_y_of() {
            Ok(wy) => slenderness(wy, self.mat.fy_at(LimitStateType::K) as u128, m_cr),
            Err(e) => Err(e),
        }
    }

    /// The slenderness for lateral-torsional buckling for a critical moment
    /// `m_cr`, fixed-point.
    pub fn lambda_lt(&self, m_cr: u128) -> (r: Result<u128, DesignError>)
        requires
            self.wf(),
        ensures
            r == self.lambda_lt_of(m_cr),
    {
        match self.w_y() {
            Ok(wy) => f_6_56_lambda_lt(wy, self.mat.f_y(&LimitStateType::K), m_cr),
            Err(e) => Err(e),
        }
    }
}

/// The reduction factor for a slenderness and an imperfection factor,
/// `InvalidInput` where the slenderness or φ is out of range.
pub open spec fn reduction(alpha: int, lambda: Result<u128, DesignError>) -> Result<u128, DesignError> {
    match lambda {
        Ok(l) => if in_range(l as int) && in_range(phi_of(alpha, l as int)) {
            Ok(chi_of(phi_of(alpha, l as int), l as int) as u128)
        } else {
            Err(DesignError::InvalidInput)
        },
        Err(e) => Err(e),
    }
}

fn reduction_exec(alpha: u128, lambda: Result<u128, DesignError>) -> (r: Result<u128, DesignError>)
    requires
        alpha <= SCALE,
    ensures
        r == reduction(alpha as int, lambda),
{
    match lambda {
        Ok(l) => if l <= LIMIT {
            let phi = f_6_49_phi(alpha, l);
            if phi <= LIMIT {
                Ok(f_6_49(phi, l))
            } else {
                Err(DesignError::InvalidInput)
            }
        } else {
            Err(DesignError::InvalidInput)
        },
        Err(e) => Err(e),
    }
}

impl ColumnBeam {
    /// The flexural buckling reduction factor χ about an axis.
    pub open spec fn khi_of(&self, lk: u128, axis: Axis, curve: BuckleCurve) -> Result<u128, DesignError> {
        match self.euler_load_of(lk, axis) {
            Ok(ncr) => reduction(curve.alpha_of(), self.lambda_of(ncr)),
            Err(e) => Err(e),
        }
    }

    /// The flexural buckling reduction factor about an axis for buckling
    /// length `lk` (fixed-point mm) on a buckling curve, fixed-point.
    pub fn khi(&self, lk: u128, axis: &Axis, buckle_curve: &BuckleCurve) -> (r: Result<u128, DesignError>)
        requires
            self.wf(),
        ensures
            r == self.khi_of(lk, *axis, *buckle_curve),
    {
        match self.euler_load(lk, axis) {
            Ok(ncr) => reduction_exec(buckle_curve.alpha(), self.lambda(ncr)),
            Err(e) => Err(e),
        }
    }

    /// The lateral-torsional buckling reduction factor χ_LT.
    pub open spec fn khi_lt_of(&self, lk: u128, curve: LTBCurve, mu_cr: u128) -> Result<u128, DesignError> {
        match self.m_cr_of(lk, mu_cr) {
            Ok(mcr) => reduction(curve.alpha_of(), self.lambda_lt_of(mcr)),
            Err(e) => Err(e),
        }
    }

    /// The lateral-torsional buckling reduction factor for length `lk`
    /// (fixed-point mm), curve and correction factor `mu_cr`, fixed-point.
    pub fn khi_lt(&self, lk: u128, buckle_curve: &LTBCurve, mu_cr: u128) -> (r: Result<u128, DesignError>)
        requires
            self.wf(),
        ensures
            r == self.khi_lt_of(lk, *buckle_curve, mu_cr),
    {
        match self.M_cr(lk, mu_cr) {
            Ok(mcr) => reduction_exec(buckle_curve.alpha(), self.lambda_lt(mcr)),
            Err(e) => Err(e),
        }
    }

    /// The buckling resistance `χ · A · f_y,k / γ_M1` (6.47).
    pub open spec fn buckle_cap_of(&self, lk: u128, axis: Axis, curve: BuckleCurve, ls: LimitStateType) -> Result<u128, DesignError> {
        match self.khi_of(lk, axis, curve) {
            Ok(khi) => checked(div_checked(mul_checked(mul_checked(Some(khi), Some(self.crs.area_of() as u128)), Some(self.mat.fy_at(LimitStateType::K) as u128)), Some(self.mat.gamma_m1_at(ls) as u128))),
            Err(e) => Err(e),
        }
    }

    /// The buckling resistance about an axis for buckling length `lk`
    /// (fixed-point mm), fixed-point N: the characteristic strength, divided
    /// by γ_M1 of the limit state.
    pub fn buckle_cap(&self, lk: u128, axis: &Axis, buckle_curve: &BuckleCurve, limit_state_type: &LimitStateType) -> (r: Result<u128, DesignError>)
        requires
            self.wf(),
        ensures
            r == self.buckle_cap_of(lk, *axis, *buckle_curve, *limit_state_type),
    {
        match self.khi(lk, axis, buckle_curve) {
            Ok(khi) => checked_exec(div_opt(mul_opt(mul_opt(Some(khi), Some(self.crs.area())), Some(self.mat.f_y(&LimitStateType::K))), Some(self.mat.gamma_m1(limit_state_type)))),
            Err(e) => Err(e),
        }
    }

    /// Self weight per length: `A · ρ`, fixed-point kg/m.
    pub open spec fn self_weight_kg_of(&self) -> Result<u128, DesignError> {
        checked(match scale_by(self.mat.density as u128, Some(self.crs.area_of() as u128)) {
            Some(x) => Some((x / 1_000_000) as u128),
            None => None,
        })
    }

    /// Self weight per length, fixed-point kg/m.
    pub fn self_weight_kg_per_meter(&self) -> (r: Result<u128, DesignError>)
        requires
            self.wf(),
        ensures
            r == self.self_weight_kg_of(),
    {
        match scale_by_exec(self.mat.density as u128, Some(self.crs.area())) {
            Some(x) => Ok(x / 1_000_000),
            None => Err(DesignError::InvalidInput),
        }
    }

    /// Self weight per length under standard gravity, fixed-point kN/m.
    pub open spec fn self_weight_kn_of(&self) -> Result<u128, DesignError> {
        match self.self_weight_kg_of() {
            Ok(kg) => checked(match mul_checked(Some(kg), Some(GRAVITY)) {
                Some(x) => Some((x / 1000) as u128),
                None => None,
            }),
            Err(e) => Err(e),
        }
    }

    /// Self weight per length under standard gravity, fixed-point kN/m.
    #[allow(non_snake_case)]
    pub fn self_weight_kN_per_meter(&self) -> (r: Result<u128, DesignError>)
        requires
            self.wf(),
        ensures
            r == self.self_weight_kn_of(),
    {
        match self.self_weight_kg_per_meter() {
            Ok(kg) => match mul_opt(Some(kg), Some(GRAVITY)) {
                Some(x) => Ok(x / 1000),
                None => Err(DesignError::InvalidInput),
            },
            Err(e) => Err(e),
        }
    }
}

impl Default for ColumnBeam {
    /// A member of HEB 100 in steel S355.
    fn default() -> (r: Self)
        ensures
            r.wf(),
            r.crs == CrossSection::Heb(CrsHEB::default_row()),
            r.mat.fy == 355,
            r.mat.fu == 490,
            r.mat.youngs_modulus == 210_000,
            r.mat.poisson_ratio == 300_000,
            r.mat.density == 7850,
            r.mat.gamma_m0 == 1_050_000,
            r.mat.gamma_m1 == 1_050_000,
    {
        ColumnBeam { crs: CrossSection::Heb(CrsHEB::default()), mat: Steel::default() }
    }
}

/// The five utilisation ratios of a member: the cross-section check 6.2,
/// flexural buckling about each axis (6.46), and the combined checks 6.61
/// and 6.62. A ratio up to 1 (`1_000_000`) passes; a check that could not be
/// evaluated holds its error.
#[derive(Clone, Copy, Debug)]
pub struct DesignChecks {
    pub util_6_2: Result<u128, DesignError>,
    pub util_6_46_y: Result<u128, DesignError>,
    pub util_6_46_z: Result<u128, DesignError>,
    pub util_6_61: Result<u128, DesignError>,
    pub util_6_62: Result<u128, DesignError>,
}

/// The larger of two results; the first error where either fails.
pub open spec fn max_result(a: Result<u128, DesignError>, b: Result<u128, DesignError>) -> Result<u128, DesignError> {
    match (a, b) {
        (Ok(x), Ok(y)) => Ok(if x >= y { x } else { y }),
        (Err(e), _) => Err(e),
        (_, Err(e)) => Err(e),
    }
}

fn max_result_exec(a: Result<u128, DesignError>, b: Result<u128, DesignError>) -> (r: Result<u128, DesignError>)
    ensures
        r == max_result(a, b),
{
    match (a, b) {
        (Ok(x), Ok(y)) => Ok(if x >= y { x } else { y }),
        (Err(e), _) => Err(e),
        (_, Err(e)) => Err(e),
    }
}

impl DesignChecks {
    /// The governing ratio: the largest of the five.
    pub open spec fn governing_of(&self) -> Result<u128, DesignError> {
        max_result(max_result(max_result(max_result(self.util_6_2, self.util_6_46_y), self.util_6_46_z), self.util_6_61), self.util_6_62)
    }

    /// The governing ratio: the largest of the five; the first error where
    /// a check could not be evaluated.
    pub fn governing(&self) -> (r: Result<u128, DesignError>)
        ensures
            r == self.governing_of(),
    {
        max_result_exec(max_result_exec(max_result_exec(max_result_exec(self.util_6_2, self.util_6_46_y), self.util_6_46_z), self.util_6_61), self.util_6_62)
    }
}

impl ColumnBeam {
    /// The interaction factors of Table B.1 for the member: slenderness and
    /// reduction factor about each axis from the critical loads and the
    /// curve, axial utilisation with the characteristic resistance and the
    /// design γ_M1.
    pub open spec fn table_b1_of(&self, n_cr_y: u128, n_cr_z: u128, c_my: u128, c_mz: u128, class: CrossSectionClass, curve: BuckleCurve, n_ed: u128) -> Result<TableB_1, DesignError> {
        let ly = self.lambda_of(n_cr_y);
        let lz = self.lambda_of(n_cr_z);
        match (ly, lz, reduction(curve.alpha_of(), ly), reduction(curve.alpha_of(), lz), self.n_pl_of(LimitStateType::K)) {
            (Ok(lam_y), Ok(lam_z), Ok(ksi_y), Ok(ksi_z), Ok(n_rk)) => {
                let g1 = self.mat.gamma_m1_at(LimitStateType::D) as u128;
                match (util_axial(n_ed, ksi_y, n_rk, g1), util_axial(n_ed, ksi_z, n_rk, g1)) {
                    (Some(uy), Some(uz)) => match table_b1(class, self.crs.is_open(), c_my, c_mz, lam_y, lam_z, uy, uz) {
                        Some(t) => Ok(t),
                        None => Err(DesignError::InvalidInput),
                    },
                    _ => Err(DesignError::InvalidInput),
                }
            },
            (Err(e), _, _, _, _) => Err(e),
            (_, Err(e), _, _, _) => Err(e),
            (_, _, Err(e), _, _) => Err(e),
            (_, _, _, Err(e), _) => Err(e),
            (_, _, _, _, Err(e)) => Err(e),
        }
    }

}

impl TableB_1 {
    /// The interaction factors of Table B.1 for a member `mmb` whose section
    /// is of class `crs_class`, from the critical loads about each axis, the
    /// equivalent moment factors, the buckling curve and the axial force.
    pub fn from_crs_class(n_cr_y: u128, n_cr_z: u128, c_my: u128, c_mz: u128, mmb: &ColumnBeam, crs_class: &CrossSectionClass, buckle_curve: &BuckleCurve, n_ed: u128) -> (r: Result<TableB_1, DesignError>)
        requires
            mmb.wf(),
        ensures
            r == mmb.table_b1_of(n_cr_y, n_cr_z, c_my, c_mz, *crs_class, *buckle_curve, n_ed),
    {
        let class = crs_class;
        let ly = mmb.lambda(n_cr_y);
        let lz = mmb.lambda(n_cr_z);
        let alpha = buckle_curve.alpha();
        match (ly, lz, reduction_exec(alpha, ly), reduction_exec(alpha, lz), mmb.N_pl(&LimitStateType::K)) {
            (Ok(lam_y), Ok(lam_z), Ok(ksi_y), Ok(ksi_z), Ok(n_rk)) => {
                let g1 = mmb.mat.gamma_m1(&LimitStateType::D);
                match (f_6_61_util_n(n_ed, ksi_y, n_rk, g1), f_6_62_util_n(n_ed, ksi_z, n_rk, g1)) {
                    (Some(uy), Some(uz)) => match TableB_1::from_factors(*class, mmb.crs.is_open_shape(), c_my, c_mz, lam_y, lam_z, uy, uz) {
                        Some(t) => Ok(t),
                        None => Err(DesignError::InvalidInput),
                    },
                    _ => Err(DesignError::InvalidInput),
                }
            },
            (Err(e), _, _, _, _) => Err(e),
            (_, Err(e), _, _, _) => Err(e),
            (_, _, Err(e), _, _) => Err(e),
            (_, _, _, Err(e), _) => Err(e),
            (_, _, _, _, Err(e)) => Err(e),
        }
    }

}

impl ColumnBeam {
    /// Utilisation of a combined check: axial term with `khi`, major-axis
    /// term with `k_my` and `khi_lt`, minor-axis term with `k_mz`.
    pub open spec fn combined_of(&self, load: LoadCase, khi: u128, k_my: u128, k_mz: u128, khi_lt: u128, t67: Table6_7) -> Result<u128, DesignError> {
        let fyk = self.mat.fy_at(LimitStateType::K) as u128;
        let g1 = self.mat.gamma_m1_at(LimitStateType::D) as u128;
        match (self.n_pl_of(LimitStateType::K), mul_checked(Some(t67.Wy), Some(fyk)), mul_checked(Some(t67.Wz), Some(fyk))) {
            (Ok(n_rk), Some(my_rk), Some(mz_rk)) => match (
                util_axial(load.N, khi, n_rk, g1),
                util_moment(load.My, t67.delta_My_Ed, my_rk, k_my, khi_lt, g1),
                util_moment(load.Mz, t67.delta_Mz_Ed, mz_rk, k_mz, SCALE, g1),
            ) {
                (Some(a), Some(b), Some(c)) => checked(util_sum(a, b, c)),
                _ => Err(DesignError::InvalidInput),
            },
            (Err(e), _, _) => Err(e),
            _ => Err(DesignError::InvalidInput),
        }
    }

    fn combined(&self, load: &LoadCase, khi: u128, k_my: u128, k_mz: u128, khi_lt: u128, t67: &Table6_7, major: bool) -> (r: Result<u128, DesignError>)
        requires
            self.wf(),
        ensures
            r == self.combined_of(*load, khi, k_my, k_mz, khi_lt, *t67),
    {
        let fyk = self.mat.f_y(&LimitStateType::K);
        let g1 = self.mat.gamma_m1(&LimitStateType::D);
        match (self.N_pl(&LimitStateType::K), mul_opt(Some(t67.Wy), Some(fyk)), mul_opt(Some(t67.Wz), Some(fyk))) {
            (Ok(n_rk), Some(my_rk), Some(mz_rk)) => {
                let terms = if major {
                    (
                        f_6_61_util_n(load.N, khi, n_rk, g1),
                        f_6_61_util_my(load.My, t67.delta_My_Ed, my_rk, k_my, khi_lt, g1),
                        f_6_61_util_mz(load.Mz, t67.delta_Mz_Ed, mz_rk, k_mz, g1),
                    )
                } else {
                    (
                        f_6_62_util_n(load.N, khi, n_rk, g1),
                        f_6_62_util_my(load.My, t67.delta_My_Ed, my_rk, k_my, khi_lt, g1),
                        f_6_62_util_mz(load.Mz, t67.delta_Mz_Ed, mz_rk, k_mz, g1),
                    )
                };
                match terms {
                    (Some(a), Some(b), Some(c)) => checked_exec(
                        if major {
                            f_6_61(a, b, c)
                        } else {
                            f_6_62(a, b, c)
                        },
                    ),
                    _ => Err(DesignError::InvalidInput),
                }
            },
            (Err(e), _, _) => Err(e),
            _ => Err(DesignError::InvalidInput),
        }
    }

    /// Check 6.2: the cross-section under axial force and biaxial bending,
    /// against the design plastic resistances.
    pub open spec fn dc_6_2_of(&self, load: LoadCase) -> Result<u128, DesignError> {
        match (self.n_pl_of(LimitStateType::D), self.m_pl_of(Axis::Y, LimitStateType::D), self.m_pl_of(Axis::Z, LimitStateType::D)) {
            (Ok(n), Ok(my), Ok(mz)) => checked(util_6_2(load.N, load.My, load.Mz, n, my, mz)),
            (Err(e), _, _) => Err(e),
            (_, Err(e), _) => Err(e),
            (_, _, Err(e)) => Err(e),
        }
    }

    /// Check 6.2 of the member under a load case, fixed-point ratio.
    pub fn dc_6_2(&self, design_load: &LoadCase) -> (r: Result<u128, DesignError>)
        requires
            self.wf(),
        ensures
            r == self.dc_6_2_of(*design_load),
    {
        match (self.N_pl(&LimitStateType::D), self.M_pl(&Axis::Y, &LimitStateType::D), self.M_pl(&Axis::Z, &LimitStateType::D)) {
            (Ok(n), Ok(my), Ok(mz)) => checked_exec(f_6_2(design_load.N, design_load.My, design_load.Mz, n, my, mz)),
            (Err(e), _, _) => Err(e),
            (_, Err(e), _) => Err(e),
            (_, _, Err(e)) => Err(e),
        }
    }

    /// Check 6.46: flexural buckling about one axis, `N_Ed / N_b,Rd`.
    pub open spec fn dc_6_46_of(&self, load: LoadCase, lk: u128, axis: Axis, curve: BuckleCurve) -> Result<u128, DesignError> {
        match self.buckle_cap_of(lk, axis, curve, LimitStateType::D) {
            Ok(nb) => checked(div_checked(Some(load.N), Some(nb))),
            Err(e) => Err(e),
        }
    }

    /// Check 6.46 about an axis for buckling length `lk` (fixed-point mm).
    pub fn dc_6_46(&self, design_load: &LoadCase, lk: u128, axis: &Axis, buckle_curve: &BuckleCurve) -> (r: Result<u128, DesignError>)
        requires
            self.wf(),
        ensures
            r == self.dc_6_46_of(*design_load, lk, *axis, *buckle_curve),
    {
        match self.buckle_cap(lk, axis, buckle_curve, &LimitStateType::D) {
            Ok(nb) => checked_exec(div_opt(Some(design_load.N), Some(nb))),
            Err(e) => Err(e),
        }
    }

    /// Check 6.61 (`major`) or 6.62: the combined check about the major or
    /// the minor axis, with the class of the web in compression.
    pub open spec fn dc_combined_of(&self, load: LoadCase, c_my: u128, c_mz: u128, mu_cr: u128, lk: u128, curve: BuckleCurve, ltb_curve: LTBCurve, major: bool) -> Result<u128, DesignError> {
        match self.class_of(CrossSectionClassCase::WebCompression) {
            Err(e) => Err(e),
            Ok(class) => match table_6_7(self.crs, class) {
                Err(e) => Err(e),
                Ok(t67) => match (self.euler_load_of(lk, Axis::Y), self.euler_load_of(lk, Axis::Z)) {
                    (Ok(ny), Ok(nz)) => match self.table_b1_of(ny, nz, c_my, c_mz, class, curve, load.N) {
                        Ok(tb) => match (self.khi_of(lk, if major { Axis::Y } else { Axis::Z }, curve), self.khi_lt_of(lk, ltb_curve, mu_cr)) {
                            (Ok(k), Ok(klt)) => if major {
                                self.combined_of(load, k, tb.k_yy, tb.k_yz, klt, t67)
                            } else {
                                self.combined_of(load, k, tb.k_zy, tb.k_zz, klt, t67)
                            },
                            (Err(e), _) => Err(e),
                            (_, Err(e)) => Err(e),
                        },
                        Err(e) => Err(e),
                    },
                    (Err(e), _) => Err(e),
                    (_, Err(e)) => Err(e),
                },
            },
        }
    }

    fn dc_combined(&self, design_load: &LoadCase, c_my: u128, c_mz: u128, mu_cr: u128, lk: u128, buckle_curve: &BuckleCurve, ltb_curve: &LTBCurve, major: bool) -> (r: Result<u128, DesignError>)
        requires
            self.wf(),
        ensures
            r == self.dc_combined_of(*design_load, c_my, c_mz, mu_cr, lk, *buckle_curve, *ltb_curve, major),
    {
        match self.cross_section_class(&CrossSectionClassCase::WebCompression) {
            Err(e) => Err(e),
            Ok(class) => match Table6_7::from_crs_class(&self.crs, &class) {
                Err(e) => Err(e),
                Ok(t67) => match (self.euler_load(lk, &Axis::Y), self.euler_load(lk, &Axis::Z)) {
                    (Ok(ny), Ok(nz)) => match TableB_1::from_crs_class(ny, nz, c_my, c_mz, self, &class, buckle_curve, design_load.N) {
                        Ok(tb) => {
                            let axis = if major { Axis::Y } else { Axis::Z };
                            match (self.khi(lk, &axis, buckle_curve), self.khi_lt(lk, ltb_curve, mu_cr)) {
                                (Ok(k), Ok(klt)) => if major {
                                    self.combined(design_load, k, tb.k_yy, tb.k_yz, klt, &t67, true)
                                } else {
                                    self.combined(design_load, k, tb.k_zy, tb.k_zz, klt, &t67, false)
                                },
                                (Err(e), _) => Err(e),
                                (_, Err(e)) => Err(e),
                            }
                        },
                        Err(e) => Err(e),
                    },
                    (Err(e), _) => Err(e),
                    (_, Err(e)) => Err(e),
                },
            },
        }
    }

    /// Check 6.61: combined axial force, bending and buckling about the
    /// major axis, with equivalent moment factors `c_my`, `c_mz`, correction
    /// `mu_cr`, length `lk` (fixed-point mm) and the curves.
    pub fn dc_6_61(&self, design_load: &LoadCase, c_my: u128, c_mz: u128, mu_cr: u128, lk: u128, buckle_curve_y: &BuckleCurve, ltb_curve: &LTBCurve) -> (r: Result<u128, DesignError>)
        requires
            self.wf(),
        ensures
            r == self.dc_combined_of(*design_load, c_my, c_mz, mu_cr, lk, *buckle_curve_y, *ltb_curve, true),
    {
        self.dc_combined(design_load, c_my, c_mz, mu_cr, lk, buckle_curve_y, ltb_curve, true)
    }

    /// Check 6.62: combined axial force, bending and buckling about the
    /// minor axis.
    pub fn dc_6_62(&self, design_load: &LoadCase, c_my: u128, c_mz: u128, mu_cr: u128, lk: u128, buckle_curve_z: &BuckleCurve, ltb_curve: &LTBCurve) -> (r: Result<u128, DesignError>)
        requires
            self.wf(),
        ensures
            r == self.dc_combined_of(*design_load, c_my, c_mz, mu_cr, lk, *buckle_curve_z, *ltb_curve, false),
    {
        self.dc_combined(design_load, c_my, c_mz, mu_cr, lk, buckle_curve_z, ltb_curve, false)
    }

    /// All five checks of the member under a load case: buckling lengths
    /// `lk_y`, `lk_z` for flexural buckling and `lk_ltb` for the combined
    /// checks.
    pub fn dc(&self, design_load: &LoadCase, c_my: u128, c_mz: u128, mu_cr: u128, lk_y: u128, lk_z: u128, lk_ltb: u128, buckle_curve_y: &BuckleCurve, buckle_curve_z: &BuckleCurve, ltb_curve: &LTBCurve) -> (r: DesignChecks)
        requires
            self.wf(),
        ensures
            r.util_6_2 == self.dc_6_2_of(*design_load),
            r.util_6_46_y == self.dc_6_46_of(*design_load, lk_y, Axis::Y, *buckle_curve_y),
            r.util_6_46_z == self.dc_6_46_of(*design_load, lk_z, Axis::Z, *buckle_curve_z),
            r.util_6_61 == self.dc_combined_of(*design_load, c_my, c_mz, mu_cr, lk_ltb, *buckle_curve_y, *ltb_curve, true),
            r.util_6_62 == self.dc_combined_of(*design_load, c_my, c_mz, mu_cr, lk_ltb, *buckle_curve_z, *ltb_curve, false),
    {
        DesignChecks {
            util_6_2: self.dc_6_2(design_load),
            util_6_46_y: self.dc_6_46(design_load, lk_y, &Axis::Y, buckle_curve_y),
            util_6_46_z: self.dc_6_46(design_load, lk_z, &Axis::Z, buckle_curve_z),
            util_6_61: self.dc_6_61(design_load, c_my, c_mz, mu_cr, lk_ltb, buckle_curve_y, ltb_curve),
            util_6_62: self.dc_6_62(design_load, c_my, c_mz, mu_cr, lk_ltb, buckle_curve_z, ltb_curve),
        }
    }
}

/// A class as a fixed-point number, for a report.
pub open spec fn class_value(r: Result<CrossSectionClass, DesignError>) -> Result<u128, DesignError> {
    match r {
        Ok(c) => Ok((c.rank() * SCALE) as u128),
        Err(e) => Err(e),
    }
}

fn class_value_exec(r: Result<CrossSectionClass, DesignError>) -> (v: Result<u128, DesignError>)
    ensures
        v == class_value(r),
{
    match r {
        Ok(c) => Ok(c.to_num() as u128 * SCALE),
        Err(e) => Err(e),
    }
}

impl ColumnBeam {
    /// The quantities of the member by name: the entries of `report`.
    pub open spec fn report_of(&self) -> Seq<(&'static str, Result<u128, DesignError>)> {
        seq![
            ("EA", self.ea_of()),
            ("EI_y", self.ei_of(Axis::Y)),
            ("EI_z", self.ei_of(Axis::Z)),
            ("self_weight_kg_pr_meter", self.self_weight_kg_of()),
            ("self_weight_kN_pr_meter", self.self_weight_kn_of()),
            ("Cross_section_class_web_bending", class_value(self.class_of(CrossSectionClassCase::WebBending))),
            ("Cross_section_class_web_compression", class_value(self.class_of(CrossSectionClassCase::WebCompression))),
            ("Cross_section_class_flange_compression", class_value(self.class_of(CrossSectionClassCase::FlangeCompression))),
            ("N_pl_k", self.n_pl_of(LimitStateType::K)),
            ("V_pl_y_k", self.v_pl_of(Axis::Y, LimitStateType::K)),
            ("M_el_y_k", self.m_el_of(Axis::Y, LimitStateType::K)),
            ("M_pl_y_k", self.m_pl_of(Axis::Y, LimitStateType::K)),
            ("V_pl_z_k", self.v_pl_of(Axis::Z, LimitStateType::K)),
            ("M_el_z_k", self.m_el_of(Axis::Z, LimitStateType::K)),
            ("M_pl_z_k", self.m_pl_of(Axis::Z, LimitStateType::K)),
            ("N_pl_d", self.n_pl_of(LimitStateType::D)),
            ("V_pl_y_d", self.v_pl_of(Axis::Y, LimitStateType::D)),
            ("M_el_y_d", self.m_el_of(Axis::Y, LimitStateType::D)),
            ("M_pl_y_d", self.m_pl_of(Axis::Y, LimitStateType::D)),
            ("V_pl_z_d", self.v_pl_of(Axis::Z, LimitStateType::D)),
            ("M_el_z_d", self.m_el_of(Axis::Z, LimitStateType::D)),
            ("M_pl_z_d", self.m_pl_of(Axis::Z, LimitStateType::D)),
        ]
    }

    /// The quantities of the member as named fixed-point values, for a
    /// report: stiffnesses, self weight, the class under each stress case
    /// and the characteristic and design resistances.
    pub fn report(&self) -> (r: Vec<(&'static str, Result<u128, DesignError>)>)
        requires
            self.wf(),
        ensures
            r@ == self.report_of(),
    {
        let mut v: Vec<(&'static str, Result<u128, DesignError>)> = Vec::new();
        v.push(("EA", self.EA()));
        v.push(("EI_y", self.EI(&Axis::Y)));
        v.push(("EI_z", self.EI(&Axis::Z)));
        v.push(("self_weight_kg_pr_meter", self.self_weight_kg_per_meter()));
        v.push(("self_weight_kN_pr_meter", self.self_weight_kN_per_meter()));
        v.push(("Cross_section_class_web_bending", class_value_exec(self.cross_section_class(&CrossSectionClassCase::WebBending))));
        v.push(("Cross_section_class_web_compression", class_value_exec(self.cross_section_class(&CrossSectionClassCase::WebCompression))));
        v.push(("Cross_section_class_flange_compression", class_value_exec(self.cross_section_class(&CrossSectionClassCase::FlangeCompression))));
        v.push(("N_pl_k", self.N_pl(&LimitStateType::K)));
        v.push(("V_pl_y_k", self.V_pl(&Axis::Y, &LimitStateType::K)));
        v.push(("M_el_y_k", self.M_el(&Axis::Y, &LimitStateType::K)));
        v.push(("M_pl_y_k", self.M_pl(&Axis::Y, &LimitStateType::K)));
        v.push(("V_pl_z_k", self.V_pl(&Axis::Z, &LimitStateType::K)));
        v.push(("M_el_z_k", self.M_el(&Axis::Z, &LimitStateType::K)));
        v.push(("M_pl_z_k", self.M_pl(&Axis::Z, &LimitStateType::K)));
        v.push(("N_pl_d", self.N_pl(&LimitStateType::D)));
        v.push(("V_pl_y_d", self.V_pl(&Axis::Y, &LimitStateType::D)));
        v.push(("M_el_y_d", self.M_el(&Axis::Y, &LimitStateType::D)));
        v.push(("M_pl_y_d", self.M_pl(&Axis::Y, &LimitStateType::D)));
        v.push(("V_pl_z_d", self.V_pl(&Axis::Z, &LimitStateType::D)));
        v.push(("M_el_z_d", self.M_el(&Axis::Z, &LimitStateType::D)));
        v.push(("M_pl_z_d", self.M_pl(&Axis::Z, &LimitStateType::D)));
        assert(v@ =~= self.report_of());
        v
    }
}

} // verus!
