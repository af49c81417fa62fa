//! Structural steel member design: cross-section properties, material model,
//! cross-section classification, buckling reduction factors and the combined
//! interaction checks of EN 1993-1-1, in exact integer and rational arithmetic.
use vstd::prelude::*;

pub mod buckling;
pub mod catalog;
pub mod catalog_data;
pub mod classify;
pub mod err;
pub mod fixed;
pub mod interaction;
pub mod material;
pub mod member;
pub mod section;
pub mod text;

use crate::text::str_is;

verus! {

/// An axis of a member: `X` along the member, `Y` the major and `Z` the minor
/// axis of its cross-section.
#[derive(Clone, Copy, Debug, PartialEq, Eq, Structural)]
pub enum Axis {
    X,
    Y,
    Z,
}

/// The axis that a name denotes.
pub open spec fn axis_named(s: Seq<char>) -> Option<Axis> {
    if s == "X"@ {
        Some(Axis::X)
    } else if s == "Y"@ {
        Some(Axis::Y)
    } else if s == "Z"@ {
        Some(Axis::Z)
    } else {
        None
    }
}

impl Axis {
    /// The axis written as `"X"`, `"Y"` or `"Z"`; `None` for any other text.
    pub fn get(identifier: &str) -> (r: Option<Self>)
        ensures
            r == axis_named(identifier@),
    {
        if str_is(identifier, "X") {
            Some(Axis::X)
        } else if str_is(identifier, "Y") {
            Some(Axis::Y)
        } else if str_is(identifier, "Z") {
            Some(Axis::Z)
        } else {
            None
        }
    }
}

/// Whether a quantity is wanted at its characteristic value (`K`) or at its
/// design value (`D`, divided by the partial safety factor).
#[derive(Clone, Copy, Debug, PartialEq, Eq, Structural)]
pub enum LimitStateType {
    K,
    D,
}

/// The limit state that a name denotes.
pub open spec fn limit_state_named(s: Seq<char>) -> Option<LimitStateType> {
    if s == "K"@ || s == "k"@ || s == "Characteristic"@ || s == "characteristic"@ {
        Some(LimitStateType::K)
    } else if s == "D"@ || s == "d"@ || s == "Design"@ || s == "design"@ {
        Some(LimitStateType::D)
    } else {
        None
    }
}

impl LimitStateType {
    /// The limit state written as `K`, `k`, `Characteristic`, `characteristic`,
    /// `D`, `d`, `Design` or `design`; `None` for any other text.
    pub fn get(identifier: &str) -> (r: Option<Self>)
        ensures
            r == limit_state_named(identifier@),
    {
        if str_is(identifier, "K") || str_is(identifier, "k") || str_is(identifier, "Characteristic")
            || str_is(identifier, "characteristic") {
            Some(LimitStateType::K)
        } else if str_is(identifier, "D") || str_is(identifier, "d") || str_is(identifier, "Design")
            || str_is(identifier, "design") {
            Some(LimitStateType::D)
        } else {
            None
        }
    }
}

} // verus!
