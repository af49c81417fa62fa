//! Cross-section classification (EN 1993-1-1, Table 5.2).
//!
//! A plate of a cross-section is compared through its width-to-thickness ratio
//! `c / t` against limits that are multiples of `ε = √(235 / f_y)`; a circular
//! hollow section through `d / t` against multiples of `ε²`. Both comparisons
//! are made exactly, on integers: squared where `ε` stands alone.
use vstd::prelude::*;

verus! {

/// The class of a cross-section: `One` (plastic) to `Four` (slender).
#[derive(Clone, Copy, Debug, PartialEq, Eq, Structural)]
pub enum CrossSectionClass {
    One,
    Two,
    Three,
    Four,
}

impl CrossSectionClass {
    /// The class as a number from 1 to 4.
    pub open spec fn rank(self) -> int {
        match self {
            CrossSectionClass::One => 1,
            CrossSectionClass::Two => 2,
            CrossSectionClass::Three => 3,
            CrossSectionClass::Four => 4,
        }
    }

    /// The class as a number from 1 to 4.
    pub fn to_num(&self) -> (r: u8)
        ensures
            r as int == self.rank(),
    {
        match self {
            CrossSectionClass::One => 1,
            CrossSectionClass::Two => 2,
            CrossSectionClass::Three => 3,
            CrossSectionClass::Four => 4,
        }
    }

    /// A short description of the class; classes 3 and 4 are flagged.
    pub fn describe(&self) -> (r: &'static str)
        ensures
            *self == CrossSectionClass::One ==> r == "Cross section class 1",
            *self == CrossSectionClass::Two ==> r == "Cross section class 2",
            *self == CrossSectionClass::Three ==> r == "!!!Cross section class 3!!!",
            *self == CrossSectionClass::Four ==> r == "!!!Cross section class 4!!!",
    {
        match self {
            CrossSectionClass::One => "Cross section class 1",
            CrossSectionClass::Two => "Cross section class 2",
            CrossSectionClass::Three => "!!!Cross section class 3!!!",
            CrossSectionClass::Four => "!!!Cross section class 4!!!",
        }
    }
}

/// The stress case under which a part of a cross-section is classified.
#[derive(Clone, Copy, Debug, PartialEq, Eq, Structural)]
pub enum CrossSectionClassCase {
    WebBending,
    WebCompression,
    WebBendingAndCompression,
    FlangeCompression,
    FlangeBendingAndCompressionAtFreeEnd,
    FlangeBendingAndTesionAtFreeEnd,
    SingleParameter,
}

/// The three limits, in multiples of `ε` (or of `ε²`), that bound
/// classes 1, 2 and 3.
pub struct ClassLimits {
    pub one: u32,
    pub two: u32,
    pub three: u32,
}

/// The limits for a plate of an I-section under a stress case: a web in
/// bending or in compression, or an outstand flange in compression. Other
/// cases are not modelled.
pub open spec fn plate_limits(case: CrossSectionClassCase) -> Option<ClassLimits> {
    match case {
        CrossSectionClassCase::WebBending => Some(ClassLimits { one: 72, two: 83, three: 124 }),
        CrossSectionClassCase::WebCompression => Some(ClassLimits { one: 33, two: 38, three: 42 }),
        CrossSectionClassCase::FlangeCompression => Some(ClassLimits { one: 9, two: 10, three: 14 }),
        _ => None,
    }
}

/// The limits for a plate of an I-section under a stress case.
pub fn limits_for(case: CrossSectionClassCase) -> (r: Option<ClassLimits>)
    ensures
        r == plate_limits(case),
{
    match case {
        CrossSectionClassCase::WebBending => Some(ClassLimits { one: 72, two: 83, three: 124 }),
        CrossSectionClassCase::WebCompression => Some(ClassLimits { one: 33, two: 38, three: 42 }),
        CrossSectionClassCase::FlangeCompression => Some(ClassLimits { one: 9, two: 10, three: 14 }),
        _ => None,
    }
}

/// `c / t ≤ k · √(235 / fy)`, for `t > 0` and `fy > 0`; a plate of no
/// positive width always meets it.
pub open spec fn within_eps(c: int, t: int, fy: int, k: int) -> bool {
    c <= 0 || c * c * fy <= k * k * 235 * t * t
}

/// `d / t ≤ k · 235 / fy`, for `t > 0` and `fy > 0`.
pub open spec fn within_eps_sq(d: int, t: int, fy: int, k: int) -> bool {
    d * fy <= k * 235 * t
}

/// The lowest class whose limit is met, else class 4.
pub open spec fn class_of(one: bool, two: bool, three: bool) -> CrossSectionClass {
    if one {
        CrossSectionClass::One
    } else if two {
        CrossSectionClass::Two
    } else if three {
        CrossSectionClass::Three
    } else {
        CrossSectionClass::Four
    }
}

/// The class of a plate of width `c` and thickness `t` in steel of yield
/// strength `fy`.
pub open spec fn plate_class(c: int, t: int, fy: int, l: ClassLimits) -> CrossSectionClass {
    class_of(
        within_eps(c, t, fy, l.one as int),
        within_eps(c, t, fy, l.two as int),
        within_eps(c, t, fy, l.three as int),
    )
}

/// The class of a circular hollow section of diameter `d` and wall `t`.
pub open spec fn tube_class(d: int, t: int, fy: int) -> CrossSectionClass {
    class_of(
        within_eps_sq(d, t, fy, 50),
        within_eps_sq(d, t, fy, 70),
        within_eps_sq(d, t, fy, 90),
    )
}

fn within_eps_exec(c: i64, t: u32, fy: u32, k: u32) -> (r: bool)
    requires
        -0x4_0000_0000 <= c <= u32::MAX,
        k <= 1000,
    ensures
        r == within_eps(c as int, t as int, fy as int, k as int),
{
    if c <= 0 {
        true
    } else {
        let cc = c as u128;
        assert(cc * cc <= 0xffff_ffffu128 * 0xffff_ffffu128) by (nonlinear_arith)
            requires
                cc <= 0xffff_ffffu128,
        ;
        let lhs = cc * cc;
        assert(lhs * (fy as u128) <= 0xffff_ffffu128 * 0xffff_ffffu128 * 0xffff_ffffu128) by (nonlinear_arith)
            requires
                lhs <= 0xffff_ffffu128 * 0xffff_ffffu128,
                fy <= 0xffff_ffffu128,
        ;
        let lhs = lhs * (fy as u128);
        assert(k * k <= 1_000_000) by (nonlinear_arith)
            requires
                k <= 1000,
        ;
        let kk = (k as u128) * (k as u128);
        assert(t * t <= 0xffff_ffffu128 * 0xffff_ffffu128) by (nonlinear_arith)
            requires
                t <= 0xffff_ffffu128,
        ;
        let tt = (t as u128) * (t as u128);
        assert(kk * 235 * tt <= 235_000_000u128 * 0xffff_ffffu128 * 0xffff_ffffu128) by (nonlinear_arith)
            requires
                kk <= 1_000_000,
                tt <= 0xffff_ffffu128 * 0xffff_ffffu128,
        ;
        let rhs = kk * 235 * tt;
        assert(lhs == c * c * fy && rhs == k * k * 235 * t * t) by (nonlinear_arith)
            requires
                lhs == (cc * cc) * fy,
                cc == c,
                kk == k * k,
                tt == t * t,
                rhs == kk * 235 * tt,
        ;
        lhs <= rhs
    }
}

/// The class of a plate of width `c` and thickness `t` (both in one length
/// unit) in steel of yield strength `fy` (MPa).
pub fn classify_plate(c: i64, t: u32, fy: u32, limits: &ClassLimits) -> (r: CrossSectionClass)
    requires
        -0x4_0000_0000 <= c <= u32::MAX,
        limits.one <= 1000,
        limits.two <= 1000,
        limits.three <= 1000,
    ensures
        r == plate_class(c as int, t as int, fy as int, *limits),
{
    if within_eps_exec(c, t, fy, limits.one) {
        CrossSectionClass::One
    } else if within_eps_exec(c, t, fy, limits.two) {
        CrossSectionClass::Two
    } else if within_eps_exec(c, t, fy, limits.three) {
        CrossSectionClass::Three
    } else {
        CrossSectionClass::Four
    }
}

/// The class of a circular hollow section of outer diameter `d` and wall
/// thickness `t` (one length unit) in steel of yield strength `fy` (MPa).
pub fn classify_tube(d: u32, t: u32, fy: u32) -> (r: CrossSectionClass)
    ensures
        r == tube_class(d as int, t as int, fy as int),
{
    assert((d as u128) * (fy as u128) <= 0xffff_ffffu128 * 0xffff_ffffu128) by (nonlinear_arith)
        requires
            d <= 0xffff_ffffu128,
            fy <= 0xffff_ffffu128,
    ;
    let lhs = (d as u128) * (fy as u128);
    let t2 = (t as u128) * 235;
    proof {
        assert(50 * t2 == 50 * 235 * t as int) by (nonlinear_arith)
            requires
                t2 == t * 235,
        ;
        assert(70 * t2 == 70 * 235 * t as int) by (nonlinear_arith)
            requires
                t2 == t * 235,
        ;
        assert(90 * t2 == 90 * 235 * t as int) by (nonlinear_arith)
            requires
                t2 == t * 235,
        ;
    }
    if lhs <= 50 * t2 {
        CrossSectionClass::One
    } else if lhs <= 70 * t2 {
        CrossSectionClass::Two
    } else if lhs <= 90 * t2 {
        CrossSectionClass::Three
    } else {
        CrossSectionClass::Four
    }
}

/// A plate that is no wider and no thinner than another meets every limit
/// that the other meets.
pub proof fn lemma_within_eps_mono(c: int, t: int, c2: int, t2: int, fy: int, k: int)
    requires
        0 < t <= t2,
        c2 <= c,
        fy > 0,
        k >= 0,
        within_eps(c, t, fy, k),
    ensures
        within_eps(c2, t2, fy, k),
{
    if c2 > 0 {
        assert(c2 * c2 * fy <= c * c * fy) by (nonlinear_arith)
            requires
                0 < c2 <= c,
                fy > 0,
        ;
        assert(k * k * 235 * t * t <= k * k * 235 * t2 * t2) by (nonlinear_arith)
            requires
                0 < t <= t2,
                k >= 0,
        ;
    }
}

/// Rank of the class of a plate never rises when the plate gets thicker or
/// narrower.
pub proof fn lemma_plate_class_mono(c: int, t: int, c2: int, t2: int, fy: int, l: ClassLimits)
    requires
        0 < t <= t2,
        c2 <= c,
        fy > 0,
    ensures
        plate_class(c2, t2, fy, l).rank() <= plate_class(c, t, fy, l).rank(),
{
    if within_eps(c, t, fy, l.one as int) {
        lemma_within_eps_mono(c, t, c2, t2, fy, l.one as int);
    }
    if within_eps(c, t, fy, l.two as int) {
        lemma_within_eps_mono(c, t, c2, t2, fy, l.two as int);
    }
    if within_eps(c, t, fy, l.three as int) {
        lemma_within_eps_mono(c, t, c2, t2, fy, l.three as int);
    }
}

/// Rank of the class of a circular hollow section never rises when its wall
/// gets thicker at the same outer diameter.
pub proof fn lemma_tube_class_mono(d: int, t: int, t2: int, fy: int)
    requires
        0 < t <= t2,
        d > 0,
        fy > 0,
    ensures
        tube_class(d, t2, fy).rank() <= tube_class(d, t, fy).rank(),
{
    assert(50 * 235 * t <= 50 * 235 * t2 && 70 * 235 * t <= 70 * 235 * t2 && 90 * 235 * t
        <= 90 * 235 * t2) by (nonlinear_arith)
        requires
            t <= t2,
    ;
}

} // verus!
