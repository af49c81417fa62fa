//! Structural steel.
//!
//! Strengths and moduli are whole MPa and the density whole kg/m³; Poisson's
//! ratio and the partial safety factors are fixed-point values (see `fixed`).
//! Queries answer in fixed-point.
use vstd::prelude::*;
use crate::LimitStateType;
use crate::err::DesignError;
use crate::fixed::{SCALE, LIMIT, fx_div, fx_sqrt, div_fx, sqrt_fx};
use crate::text::str_is;

verus! {

/// A steel grade of EN 10025.
#[derive(Clone, Copy, Debug, PartialEq, Eq, Structural)]
pub enum Class {
    S235,
    S275,
    S355,
    S450,
}

/// The grade that a name denotes.
pub open spec fn class_named(s: Seq<char>) -> Option<Class> {
    if s == "S235"@ {
        Some(Class::S235)
    } else if s == "S275"@ {
        Some(Class::S275)
    } else if s == "S355"@ {
        Some(Class::S355)
    } else if s == "S450"@ {
        Some(Class::S450)
    } else {
        None
    }
}

impl Class {
    /// The grade written as `S235`, `S275`, `S355` or `S450`.
    pub fn get(identifier: &str) -> (r: Option<Self>)
        ensures
            r == class_named(identifier@),
    {
        if str_is(identifier, "S235") {
            Some(Class::S235)
        } else if str_is(identifier, "S275") {
            Some(Class::S275)
        } else if str_is(identifier, "S355") {
            Some(Class::S355)
        } else if str_is(identifier, "S450") {
            Some(Class::S450)
        } else {
            None
        }
    }

    /// The names of all grades, in order.
    pub fn variants() -> (r: Vec<String>)
        ensures
            r@.len() == 4,
            r@[0]@ == "S235"@,
            r@[1]@ == "S275"@,
            r@[2]@ == "S355"@,
            r@[3]@ == "S450"@,
    {
        let mut v: Vec<String> = Vec::new();
        v.push("S235".to_owned());
        v.push("S275".to_owned());
        v.push("S355".to_owned());
        v.push("S450".to_owned());
        v
    }
}

/// A steel: yield and ultimate strength, Young's modulus, Poisson's ratio,
/// density and the partial safety factors γ_M0 and γ_M1.
#[derive(Clone, Copy, Debug)]
pub struct Steel {
    /// Yield strength f_y, MPa.
    pub fy: u32,
    /// Ultimate strength f_u, MPa.
    pub fu: u32,
    /// Young's modulus E, MPa.
    pub youngs_modulus: u32,
    /// Poisson's ratio ν, fixed-point.
    pub poisson_ratio: u128,
    /// Density ρ, kg/m³.
    pub density: u32,
    /// Partial safety factor γ_M0, fixed-point.
    pub gamma_m0: u128,
    /// Partial safety factor γ_M1, fixed-point.
    pub gamma_m1: u128,
}

/// The strength of a steel grade: yield and ultimate, MPa.
pub open spec fn grade_strengths(class: Class) -> (u32, u32) {
    match class {
        Class::S235 => (235, 360),
        Class::S275 => (275, 430),
        Class::S355 => (355, 490),
        Class::S450 => (440, 550),
    }
}

impl Steel {
    /// Strengths and modulus positive, Poisson's ratio at most 1 and safety
    /// factors positive (and in range).
    pub open spec fn wf(&self) -> bool {
        &&& self.fy > 0
        &&& self.fu > 0
        &&& self.youngs_modulus > 0
        &&& self.poisson_ratio <= SCALE
        &&& 0 < self.gamma_m0 <= LIMIT
        &&& 0 < self.gamma_m1 <= LIMIT
    }

    /// Whether the given values make a valid steel.
    pub open spec fn valid_params(
        fy: u32,
        fu: u32,
        youngs_modulus: u32,
        poisson_ratio: u128,
        gamma_m0: u128,
        gamma_m1: u128,
    ) -> bool {
        &&& fy > 0
        &&& fu > 0
        &&& youngs_modulus > 0
        &&& poisson_ratio <= SCALE
        &&& 0 < gamma_m0 <= LIMIT
        &&& 0 < gamma_m1 <= LIMIT
    }

    /// A steel of the given properties; `InvalidInput` unless strengths and
    /// modulus are positive, Poisson's ratio at most 1 and the safety factors
    /// positive (and in range).
    pub fn new(
        fy: u32,
        fu: u32,
        youngs_modulus: u32,
        poisson_ratio: u128,
        density: u32,
        gamma_m0: u128,
        gamma_m1: u128,
    ) -> (r: Result<Self, DesignError>)
        ensures
            Self::valid_params(fy, fu, youngs_modulus, poisson_ratio, gamma_m0, gamma_m1) ==> (
            r matches Ok(s) && s.wf() && s.fy == fy && s.fu == fu && s.youngs_modulus
                == youngs_modulus && s.poisson_ratio == poisson_ratio && s.density == density
                && s.gamma_m0 == gamma_m0 && s.gamma_m1 == gamma_m1),
            !Self::valid_params(fy, fu, youngs_modulus, poisson_ratio, gamma_m0, gamma_m1) ==> r
                == Err::<Self, DesignError>(DesignError::InvalidInput),
    {
        if fy > 0 && fu > 0 && youngs_modulus > 0 && poisson_ratio <= SCALE && gamma_m0 > 0
            && gamma_m0 <= LIMIT && gamma_m1 > 0 && gamma_m1 <= LIMIT {
            Ok(Steel { fy, fu, youngs_modulus, poisson_ratio, density, gamma_m0, gamma_m1 })
        } else {
            Err(DesignError::InvalidInput)
        }
    }

    /// Structural steel of the given grade: E = 210 000 MPa, ν = 0.3,
    /// ρ = 7850 kg/m³, γ_M0 = γ_M1 = 1.05.
    pub fn from(class: &Class) -> (r: Self)
        ensures
            r.wf(),
            (r.fy, r.fu) == grade_strengths(*class),
            r.youngs_modulus == 210_000,
            r.poisson_ratio == 300_000,
            r.density == 7850,
            r.gamma_m0 == 1_050_000,
            r.gamma_m1 == 1_050_000,
    {
        let (fy, fu): (u32, u32) = match class {
            Class::S235 => (235, 360),
            Class::S275 => (275, 430),
            Class::S355 => (355, 490),
            Class::S450 => (440, 550),
        };
        Steel {
            fy,
            fu,
            youngs_modulus: 210_000,
            poisson_ratio: 300_000,
            density: 7850,
            gamma_m0: 1_050_000,
            gamma_m1: 1_050_000,
        }
    }

    /// Young's modulus E, fixed-point MPa.
    pub fn young_modulus(&self) -> (r: u128)
        ensures
            r == self.youngs_modulus * SCALE,
    {
        self.youngs_modulus as u128 * SCALE
    }

    /// The shear modulus `G = E / (2 · (1 + ν))`, fixed-point MPa.
    pub fn shear_modulus(&self) -> (r: u128)
        requires
            self.wf(),
        ensures
            r == fx_div(self.youngs_modulus * SCALE, 2 * (SCALE + self.poisson_ratio)),
    {
        div_fx(self.youngs_modulus as u128 * SCALE, 2 * (SCALE + self.poisson_ratio))
    }

    /// The density ρ, fixed-point kg/m³.
    pub fn rho(&self) -> (r: u128)
        ensures
            r == self.density * SCALE,
    {
        self.density as u128 * SCALE
    }

    /// The partial factor γ_M0 at a limit state: 1 for the characteristic
    /// value.
    pub open spec fn gamma_m0_at(&self, ls: LimitStateType) -> int {
        match ls {
            LimitStateType::K => SCALE as int,
            LimitStateType::D => self.gamma_m0 as int,
        }
    }

    /// The partial factor γ_M1 at a limit state: 1 for the characteristic
    /// value.
    pub open spec fn gamma_m1_at(&self, ls: LimitStateType) -> int {
        match ls {
            LimitStateType::K => SCALE as int,
            LimitStateType::D => self.gamma_m1 as int,
        }
    }

    /// The yield strength at a limit state: `f_y / γ_M0`, fixed-point MPa.
    pub open spec fn fy_at(&self, ls: LimitStateType) -> int {
        fx_div(self.fy * SCALE, self.gamma_m0_at(ls))
    }

    /// The ultimate strength at a limit state: `f_u / γ_M0`, fixed-point MPa.
    pub open spec fn fu_at(&self, ls: LimitStateType) -> int {
        fx_div(self.fu * SCALE, self.gamma_m0_at(ls))
    }

    /// The partial factor γ_M0 at a limit state.
    pub fn gamma_m0(&self, limit_state_type: &LimitStateType) -> (r: u128)
        ensures
            r == self.gamma_m0_at(*limit_state_type),
    {
        match limit_state_type {
            LimitStateType::K => SCALE,
            LimitStateType::D => self.gamma_m0,
        }
    }

    /// The partial factor γ_M1 at a limit state.
    pub fn gamma_m1(&self, limit_state_type: &LimitStateType) -> (r: u128)
        ensures
            r == self.gamma_m1_at(*limit_state_type),
    {
        match limit_state_type {
            LimitStateType::K => SCALE,
            LimitStateType::D => self.gamma_m1,
        }
    }

    /// The yield strength at a limit state, fixed-point MPa.
    pub fn f_y(&self, limit_state_type: &LimitStateType) -> (r: u128)
        requires
            self.wf(),
        ensures
            r == self.fy_at(*limit_state_type),
    {
        div_fx(self.fy as u128 * SCALE, self.gamma_m0(limit_state_type))
    }

    /// The ultimate strength at a limit state, fixed-point MPa.
    pub fn f_u(&self, limit_state_type: &LimitStateType) -> (r: u128)
        requires
            self.wf(),
        ensures
            r == self.fu_at(*limit_state_type),
    {
        div_fx(self.fu as u128 * SCALE, self.gamma_m0(limit_state_type))
    }

    /// The material factor `ε = √(235 / f_y)`, fixed-point.
    pub fn epsilon(&self) -> (r: u128)
        requires
            self.wf(),
        ensures
            r == fx_sqrt(fx_div(235 * SCALE, self.fy * SCALE)),
    {
        let q = div_fx(235 * SCALE, self.fy as u128 * SCALE);
        assert(q <= 235 * SCALE) by (nonlinear_arith)
            requires
                q == (235 * 1_000_000int) * 1_000_000int / (self.fy as int * 1_000_000int),
                self.fy >= 1,
        ;
        sqrt_fx(q)
    }
}

impl Default for Steel {
    /// Steel S355 with the default properties of `Steel::from`.
    fn default() -> (r: Self)
        ensures
            r.wf(),
            r.fy == 355,
            r.fu == 490,
            r.youngs_modulus == 210_000,
            r.poisson_ratio == 300_000,
            r.density == 7850,
            r.gamma_m0 == 1_050_000,
            r.gamma_m1 == 1_050_000,
    {
        Steel::from(&Class::S355)
    }
}

impl Steel {
    /// The properties of the steel by name, fixed-point: the entries of
    /// `report`.
    pub open spec fn report_of(&self) -> Seq<(&'static str, u128)> {
        seq![
            ("E", (self.youngs_modulus * SCALE) as u128),
            ("rho", (self.density * SCALE) as u128),
            ("f_y", self.fy_at(LimitStateType::K) as u128),
            ("f_y_d", self.fy_at(LimitStateType::D) as u128),
            ("f_u", self.fu_at(LimitStateType::K) as u128),
            ("f_u_d", self.fu_at(LimitStateType::D) as u128),
            ("gamma_m0", self.gamma_m0_at(LimitStateType::D) as u128),
            ("gamma_m1", self.gamma_m1_at(LimitStateType::D) as u128),
        ]
    }

    /// The properties of the steel as named fixed-point values, for a
    /// report: modulus, density, characteristic and design strengths and the
    /// design partial factors.
    pub fn report(&self) -> (r: Vec<(&'static str, u128)>)
        requires
            self.wf(),
        ensures
            r@ == self.report_of(),
    {
        let mut v: Vec<(&'static str, u128)> = Vec::new();
        v.push(("E", self.young_modulus()));
        v.push(("rho", self.rho()));
        v.push(("f_y", self.f_y(&LimitStateType::K)));
        v.push(("f_y_d", self.f_y(&LimitStateType::D)));
        v.push(("f_u", self.f_u(&LimitStateType::K)));
        v.push(("f_u_d", self.f_u(&LimitStateType::D)));
        v.push(("gamma_m0", self.gamma_m0(&LimitStateType::D)));
        v.push(("gamma_m1", self.gamma_m1(&LimitStateType::D)));
        assert(v@ =~= self.report_of());
        v
    }
}

impl Steel {
    /// Whether the steel is well formed (see `wf`).
    pub fn is_valid(&self) -> (r: bool)
        ensures
            r == self.wf(),
    {
        self.fy > 0 && self.fu > 0 && self.youngs_modulus > 0 && self.poisson_ratio <= SCALE
            && self.gamma_m0 > 0 && self.gamma_m0 <= LIMIT && self.gamma_m1 > 0 && self.gamma_m1
            <= LIMIT
    }
}

} // verus!
