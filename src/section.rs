//! Cross-sections and their geometric properties.
//!
//! Dimensions are whole tenths of a millimetre. Properties are fixed-point
//! values (see `fixed`) in mm, mm², mm³ and mm⁴. Closed forms that hold `π`
//! use it to sixteen significant digits and round down once.
use vstd::prelude::*;
use crate::Axis;
use crate::classify::{
    CrossSectionClass, CrossSectionClassCase, plate_class, tube_class, plate_limits,
    classify_plate, classify_tube, limits_for, lemma_plate_class_mono, lemma_tube_class_mono,
};
use crate::err::DesignError;

verus! {

/// Largest accepted dimension: ten metres, in tenths of a millimetre.
pub const DIM_MAX: u32 = 100_000;

/// `π` as `PI_NUM / PI_DEN`.
pub const PI_NUM: u128 = 3_141_592_653_589_793;

/// Denominator of `PI_NUM`.
pub const PI_DEN: u128 = 1_000_000_000_000_000;

/// Whether a dimension is physical and within range.
pub open spec fn dim_ok(d: u32) -> bool {
    0 < d <= DIM_MAX
}

/// `π · x · k / m`, rounded down.
pub open spec fn pi_times(x: int, k: int, m: int) -> int {
    x * k * (PI_NUM as int) / (m * (PI_DEN as int))
}

/// A solid rectangle of width `y` and height `z`.
#[derive(Clone, Copy, Debug, PartialEq, Eq, Structural)]
pub struct CrsRect {
    pub y: u32,
    pub z: u32,
}

/// A rectangular hollow section of width `y`, height `z` and wall `t`.
#[derive(Clone, Copy, Debug, PartialEq, Eq, Structural)]
pub struct CrsBox {
    pub y: u32,
    pub z: u32,
    pub t: u32,
}

/// A solid circle of diameter `d`.
#[derive(Clone, Copy, Debug, PartialEq, Eq, Structural)]
pub struct Circle {
    pub d: u32,
}

/// A circular tube of outer diameter `d` and wall `t`.
#[derive(Clone, Copy, Debug, PartialEq, Eq, Structural)]
pub struct CrsTube {
    pub d: u32,
    pub t: u32,
}

/// A rolled I-section of a catalog: dimensions in tenths of a millimetre,
/// tabulated properties in whole mm², mm³ and mm⁴.
#[derive(Clone, Copy, Debug, PartialEq, Eq, Structural)]
pub struct CrsHEB {
    pub width: u32,
    pub height: u32,
    pub thickness_web: u32,
    pub thickness_flange: u32,
    pub radius: u32,
    pub area: u64,
    pub area_shear_y: u64,
    pub w_elastic_y: u64,
    pub w_plastic_y: u64,
    pub inertia_y: u64,
    pub area_shear_z: u64,
    pub w_elastic_z: u64,
    pub w_plastic_z: u64,
    pub inertia_z: u64,
}

/// A circular hollow section of a catalog: dimensions in tenths of a
/// millimetre, tabulated properties in whole mm², mm³ and mm⁴.
#[derive(Clone, Copy, Debug, PartialEq, Eq, Structural)]
pub struct CrsCHS {
    pub diameter: u32,
    pub thickness_wall: u32,
    pub area: u64,
    pub area_shear: u64,
    pub w_elastic: u64,
    pub w_plastic: u64,
    pub inertia: u64,
    pub inertia_x: u64,
}

/// A cross-section of one of the modelled shapes.
#[derive(Clone, Copy, Debug, PartialEq, Eq, Structural)]
pub enum CrossSection {
    Rect(CrsRect),
    Box(CrsBox),
    Circle(Circle),
    Tube(CrsTube),
    Heb(CrsHEB),
    Chs(CrsCHS),
}

/// The family of a catalog section: rolled I-sections or circular hollow
/// sections.
#[derive(Clone, Copy, Debug, PartialEq, Eq, Structural)]
pub enum Variant {
    HEB,
    CHS,
}

fn prod2(a: u32, b: u32) -> (r: u128)
    requires
        a <= DIM_MAX,
        b <= DIM_MAX,
    ensures
        r == a * b,
        r <= 10_000_000_000,
{
    assert(a * b <= 10_000_000_000) by (nonlinear_arith)
        requires
            a <= 100_000,
            b <= 100_000,
    ;
    a as u128 * b as u128
}

fn prod3(a: u32, b: u32, c: u32) -> (r: u128)
    requires
        a <= DIM_MAX,
        b <= DIM_MAX,
        c <= DIM_MAX,
    ensures
        r == a * b * c,
        r <= 1_000_000_000_000_000,
{
    let ab = prod2(a, b);
    assert(ab * c <= 1_000_000_000_000_000) by (nonlinear_arith)
        requires
            ab <= 10_000_000_000,
            c <= 100_000,
    ;
    ab * c as u128
}

fn prod4(a: u32, b: u32, c: u32, d: u32) -> (r: u128)
    requires
        a <= DIM_MAX,
        b <= DIM_MAX,
        c <= DIM_MAX,
        d <= DIM_MAX,
    ensures
        r == a * b * c * d,
        r <= 100_000_000_000_000_000_000,
{
    let abc = prod3(a, b, c);
    assert(abc * d <= 100_000_000_000_000_000_000) by (nonlinear_arith)
        requires
            abc <= 1_000_000_000_000_000,
            d <= 100_000,
    ;
    abc * d as u128
}

/// `π · x · k / m`, rounded down.
fn pi_mul(x: u128, k: u128, m: u128) -> (r: u128)
    requires
        x * k <= 100_000_000_000_000_000_000_000,
        0 < m <= 100_000_000,
    ensures
        r == pi_times(x as int, k as int, m as int),
{
    assert((x * k) * PI_NUM <= 100_000_000_000_000_000_000_000u128 * PI_NUM) by (nonlinear_arith)
        requires
            x * k <= 100_000_000_000_000_000_000_000u128,
    ;
    x * k * PI_NUM / (m * PI_DEN)
}

/// `a · b · c · d ≤ e · f · g · h` where each factor is no larger.
proof fn lemma_mul4_mono(a: int, b: int, c: int, d: int, e: int, f: int, g: int, h: int)
    requires
        0 <= a <= e,
        0 <= b <= f,
        0 <= c <= g,
        0 <= d <= h,
    ensures
        a * b * c * d <= e * f * g * h,
        a * b * c <= e * f * g,
        a * b <= e * f,
{
    assert(a * b <= e * f) by (nonlinear_arith)
        requires
            0 <= a <= e,
            0 <= b <= f,
    ;
    assert(a * b * c <= e * f * g) by (nonlinear_arith)
        requires
            0 <= a * b <= e * f,
            0 <= c <= g,
    ;
    assert(a * b * c * d <= e * f * g * h) by (nonlinear_arith)
        requires
            0 <= a * b * c <= e * f * g,
            0 <= d <= h,
    ;
}

impl CrossSection {
    /// The area, fixed-point mm².
    pub open spec fn area_of(self) -> int {
        match self {
            CrossSection::Rect(s) => s.y * s.z * 10_000,
            CrossSection::Box(s) => (s.y * s.z - (s.y - 2 * s.t) * (s.z - 2 * s.t)) * 10_000,
            CrossSection::Circle(s) => pi_times(s.d * s.d, 2500, 1),
            CrossSection::Tube(s) => pi_times(s.d * s.d - (s.d - 2 * s.t) * (s.d - 2 * s.t), 2500, 1),
            CrossSection::Heb(s) => s.area * 1_000_000,
            CrossSection::Chs(s) => s.area * 1_000_000,
        }
    }

    /// The shear area for shear along an axis, fixed-point mm²; `None`
    /// where it is not modelled.
    pub open spec fn shear_area_of(self, axis: Axis) -> Option<int> {
        match (self, axis) {
            (CrossSection::Heb(s), Axis::Y) => Some(s.area_shear_y * 1_000_000),
            (CrossSection::Heb(s), Axis::Z) => Some(s.area_shear_z * 1_000_000),
            (CrossSection::Chs(s), Axis::Y) => Some(s.area_shear * 1_000_000),
            (CrossSection::Chs(s), Axis::Z) => Some(s.area_shear * 1_000_000),
            _ => None,
        }
    }

    /// The second moment of area about an axis, fixed-point mm⁴; `None`
    /// where it is not modelled (the torsion constant of most shapes).
    pub open spec fn inertia_of(self, axis: Axis) -> Option<int> {
        match (self, axis) {
            (CrossSection::Chs(s), Axis::X) => Some(s.inertia_x * 1_000_000),
            (_, Axis::X) => None,
            (CrossSection::Rect(s), Axis::Y) => Some(s.y * s.z * s.z * s.z * 25 / 3),
            (CrossSection::Rect(s), Axis::Z) => Some(s.z * s.y * s.y * s.y * 25 / 3),
            (CrossSection::Box(s), Axis::Y) => Some(
                (s.y * s.z * s.z * s.z - (s.y - 2 * s.t) * (s.z - 2 * s.t) * (s.z - 2 * s.t) * (s.z
                    - 2 * s.t)) * 25 / 3,
            ),
            (CrossSection::Box(s), Axis::Z) => Some(
                (s.z * s.y * s.y * s.y - (s.z - 2 * s.t) * (s.y - 2 * s.t) * (s.y - 2 * s.t) * (s.y
                    - 2 * s.t)) * 25 / 3,
            ),
            (CrossSection::Circle(s), _) => Some(pi_times(s.d * s.d * s.d * s.d, 25, 16)),
            (CrossSection::Tube(s), _) => Some(
                pi_times(
                    s.d * s.d * s.d * s.d - (s.d - 2 * s.t) * (s.d - 2 * s.t) * (s.d - 2 * s.t) * (
                    s.d - 2 * s.t),
                    25,
                    16,
                ),
            ),
            (CrossSection::Heb(s), Axis::Y) => Some(s.inertia_y * 1_000_000),
            (CrossSection::Heb(s), Axis::Z) => Some(s.inertia_z * 1_000_000),
            (CrossSection::Chs(s), _) => Some(s.inertia * 1_000_000),
        }
    }

    /// The elastic section modulus about an axis, fixed-point mm³: the
    /// second moment of area over the distance to the extreme fibre.
    pub open spec fn w_el_of(self, axis: Axis) -> Option<int> {
        match (self, axis) {
            (_, Axis::X) => None,
            (CrossSection::Rect(s), Axis::Y) => Some(s.y * s.z * s.z * 500 / 3),
            (CrossSection::Rect(s), Axis::Z) => Some(s.z * s.y * s.y * 500 / 3),
            (CrossSection::Box(s), Axis::Y) => Some(
                (s.y * s.z * s.z * s.z - (s.y - 2 * s.t) * (s.z - 2 * s.t) * (s.z - 2 * s.t) * (s.z
                    - 2 * s.t)) * 1000 / (6 * s.z),
            ),
            (CrossSection::Box(s), Axis::Z) => Some(
                (s.z * s.y * s.y * s.y - (s.z - 2 * s.t) * (s.y - 2 * s.t) * (s.y - 2 * s.t) * (s.y
                    - 2 * s.t)) * 1000 / (6 * s.y),
            ),
            (CrossSection::Circle(s), _) => Some(pi_times(s.d * s.d * s.d, 125, 4)),
            (CrossSection::Tube(s), _) => Some(
                pi_times(
                    s.d * s.d * s.d * s.d - (s.d - 2 * s.t) * (s.d - 2 * s.t) * (s.d - 2 * s.t) * (
                    s.d - 2 * s.t),
                    125,
                    4 * s.d,
                ),
            ),
            (CrossSection::Heb(s), Axis::Y) => Some(s.w_elastic_y * 1_000_000),
            (CrossSection::Heb(s), Axis::Z) => Some(s.w_elastic_z * 1_000_000),
            (CrossSection::Chs(s), _) => Some(s.w_elastic * 1_000_000),
        }
    }

    /// The plastic section modulus about an axis, fixed-point mm³.
    pub open spec fn w_pl_of(self, axis: Axis) -> Option<int> {
        match (self, axis) {
            (_, Axis::X) => None,
            (CrossSection::Rect(s), Axis::Y) => Some(s.y * s.z * s.z * 250),
            (CrossSection::Rect(s), Axis::Z) => Some(s.z * s.y * s.y * 250),
            (CrossSection::Box(s), Axis::Y) => Some(
                (s.y * s.z * s.z - (s.y - 2 * s.t) * (s.z - 2 * s.t) * (s.z - 2 * s.t)) * 250,
            ),
            (CrossSection::Box(s), Axis::Z) => Some(
                (s.z * s.y * s.y - (s.z - 2 * s.t) * (s.y - 2 * s.t) * (s.y - 2 * s.t)) * 250,
            ),
            (CrossSection::Circle(s), _) => Some(s.d * s.d * s.d * 500 / 3),
            (CrossSection::Tube(s), _) => Some(
                (s.d * s.d * s.d - (s.d - 2 * s.t) * (s.d - 2 * s.t) * (s.d - 2 * s.t)) * 500 / 3,
            ),
            (CrossSection::Heb(s), Axis::Y) => Some(s.w_plastic_y * 1_000_000),
            (CrossSection::Heb(s), Axis::Z) => Some(s.w_plastic_z * 1_000_000),
            (CrossSection::Chs(s), _) => Some(s.w_plastic * 1_000_000),
        }
    }

    /// The class of the section under a stress case, in steel of yield
    /// strength `fy` (MPa); `None` where the case does not apply to the
    /// shape. The web of an I-section is its straight part between the root
    /// radii, `c = h − 2·t_f − 2·r`; its flange outstand is
    /// `c = (b − t_w) / 2 − r`.
    pub open spec fn class_of(self, fy: u32, case: CrossSectionClassCase) -> Option<CrossSectionClass> {
        match self {
            CrossSection::Heb(s) => match plate_limits(case) {
                Some(l) => Some(
                    if case is FlangeCompression {
                        plate_class(
                            s.width - s.thickness_web - 2 * s.radius,
                            2 * s.thickness_flange,
                            fy as int,
                            l,
                        )
                    } else {
                        plate_class(
                            s.height - 2 * s.thickness_flange - 2 * s.radius,
                            s.thickness_web as int,
                            fy as int,
                            l,
                        )
                    },
                ),
                None => None,
            },
            CrossSection::Chs(s) => if case is WebBending || case is WebCompression
                || case is SingleParameter {
                Some(tube_class(s.diameter as int, s.thickness_wall as int, fy as int))
            } else {
                None
            },
            CrossSection::Tube(s) => if case is WebBending || case is WebCompression
                || case is SingleParameter {
                Some(tube_class(s.d as int, s.t as int, fy as int))
            } else {
                None
            },
            _ => None,
        }
    }
}

impl CrsRect {
    /// A rectangle of width `y` and height `z`; `InvalidInput` unless both
    /// are positive and at most `DIM_MAX`.
    pub fn new(y: u32, z: u32) -> (r: Result<Self, DesignError>)
        ensures
            dim_ok(y) && dim_ok(z) ==> r == Ok::<Self, DesignError>(CrsRect { y, z }),
            !(dim_ok(y) && dim_ok(z)) ==> r == Err::<Self, DesignError>(DesignError::InvalidInput),
    {
        if 0 < y && y <= DIM_MAX && 0 < z && z <= DIM_MAX {
            Ok(CrsRect { y, z })
        } else {
            Err(DesignError::InvalidInput)
        }
    }

    /// A square of 100 mm.
    pub fn default() -> (r: Self)
        ensures
            r == (CrsRect { y: 1000, z: 1000 }),
    {
        CrsRect { y: 1000, z: 1000 }
    }
}

impl CrsBox {
    /// A box of width `y`, height `z` and wall `t`; `InvalidInput` unless all
    /// are positive, at most `DIM_MAX`, and the walls leave a hollow.
    pub fn new(y: u32, z: u32, t: u32) -> (r: Result<Self, DesignError>)
        ensures
            dim_ok(y) && dim_ok(z) && dim_ok(t) && 2 * t < y && 2 * t < z ==> r == Ok::<
                Self,
                DesignError,
            >(CrsBox { y, z, t }),
            !(dim_ok(y) && dim_ok(z) && dim_ok(t) && 2 * t < y && 2 * t < z) ==> r == Err::<
                Self,
                DesignError,
            >(DesignError::InvalidInput),
    {
        if 0 < y && y <= DIM_MAX && 0 < z && z <= DIM_MAX && 0 < t && t <= DIM_MAX && 2 * t < y
            && 2 * t < z {
            Ok(CrsBox { y, z, t })
        } else {
            Err(DesignError::InvalidInput)
        }
    }

    /// A box of 100 mm with 10 mm walls.
    pub fn default() -> (r: Self)
        ensures
            r == (CrsBox { y: 1000, z: 1000, t: 100 }),
    {
        CrsBox { y: 1000, z: 1000, t: 100 }
    }
}

impl Circle {
    /// A circle of diameter `d`; `InvalidInput` unless it is positive and at
    /// most `DIM_MAX`.
    pub fn new(d: u32) -> (r: Result<Self, DesignError>)
        ensures
            dim_ok(d) ==> r == Ok::<Self, DesignError>(Circle { d }),
            !dim_ok(d) ==> r == Err::<Self, DesignError>(DesignError::InvalidInput),
    {
        if 0 < d && d <= DIM_MAX {
            Ok(Circle { d })
        } else {
            Err(DesignError::InvalidInput)
        }
    }
}

impl CrsTube {
    /// A tube of outer diameter `d` and wall `t`; `InvalidInput` unless both
    /// are positive, at most `DIM_MAX`, and the wall leaves a hollow.
    pub fn new(d: u32, t: u32) -> (r: Result<Self, DesignError>)
        ensures
            dim_ok(d) && dim_ok(t) && 2 * t < d ==> r == Ok::<Self, DesignError>(
                CrsTube { d, t },
            ),
            !(dim_ok(d) && dim_ok(t) && 2 * t < d) ==> r == Err::<Self, DesignError>(
                DesignError::InvalidInput,
            ),
    {
        if 0 < d && d <= DIM_MAX && 0 < t && t <= DIM_MAX && 2 * t < d {
            Ok(CrsTube { d, t })
        } else {
            Err(DesignError::InvalidInput)
        }
    }
}

impl CrossSection {
    /// Dimensions positive and within range, walls thinner than half the
    /// outer size, tabulated properties positive.
    pub open spec fn wf(self) -> bool {
        match self {
            CrossSection::Rect(s) => dim_ok(s.y) && dim_ok(s.z),
            CrossSection::Box(s) => dim_ok(s.y) && dim_ok(s.z) && dim_ok(s.t) && 2 * s.t < s.y && 2
                * s.t < s.z,
            CrossSection::Circle(s) => dim_ok(s.d),
            CrossSection::Tube(s) => dim_ok(s.d) && dim_ok(s.t) && 2 * s.t < s.d,
            CrossSection::Heb(s) => dim_ok(s.width) && dim_ok(s.height) && dim_ok(s.thickness_web)
                && dim_ok(s.thickness_flange) && s.radius <= DIM_MAX && s.area > 0 && s.area_shear_y
                > 0 && s.area_shear_z > 0 && s.w_elastic_y > 0 && s.w_elastic_z > 0 && s.w_plastic_y
                > 0 && s.w_plastic_z > 0 && s.inertia_y > 0 && s.inertia_z > 0,
            CrossSection::Chs(s) => dim_ok(s.diameter) && dim_ok(s.thickness_wall) && s.area > 0
                && s.area_shear > 0 && s.w_elastic > 0 && s.w_plastic > 0 && s.inertia > 0
                && s.inertia_x > 0,
        }
    }

    /// Whether the section is an open I-shape (rather than a closed or
    /// solid shape); this selects the formula for k_zz.
    pub open spec fn is_open(self) -> bool {
        self is Heb
    }

    /// Width of the bounding box (along the y-axis), tenths of a mm.
    pub open spec fn width_of(self) -> int {
        match self {
            CrossSection::Rect(s) => s.y as int,
            CrossSection::Box(s) => s.y as int,
            CrossSection::Circle(s) => s.d as int,
            CrossSection::Tube(s) => s.d as int,
            CrossSection::Heb(s) => s.width as int,
            CrossSection::Chs(s) => s.diameter as int,
        }
    }

    /// Height of the bounding box (along the z-axis), tenths of a mm.
    pub open spec fn height_of(self) -> int {
        match self {
            CrossSection::Rect(s) => s.z as int,
            CrossSection::Box(s) => s.z as int,
            CrossSection::Circle(s) => s.d as int,
            CrossSection::Tube(s) => s.d as int,
            CrossSection::Heb(s) => s.height as int,
            CrossSection::Chs(s) => s.diameter as int,
        }
    }

    /// Whether the section is an open I-shape.
    pub fn is_open_shape(&self) -> (r: bool)
        ensures
            r == self.is_open(),
    {
        match self {
            CrossSection::Heb(_) => true,
            _ => false,
        }
    }

    /// The catalog family of a catalog section; `None` for the closed-form
    /// shapes.
    pub fn variant(&self) -> (r: Option<Variant>)
        ensures
            self is Heb <==> r == Some(Variant::HEB),
            self is Chs <==> r == Some(Variant::CHS),
            !(self is Heb || self is Chs) <==> r is None,
    {
        match self {
            CrossSection::Heb(_) => Some(Variant::HEB),
            CrossSection::Chs(_) => Some(Variant::CHS),
            _ => None,
        }
    }

    /// Width of the bounding box, fixed-point mm.
    pub fn width(&self) -> (r: u128)
        ensures
            r == self.width_of() * 100_000,
    {
        let w: u32 = match self {
            CrossSection::Rect(s) => s.y,
            CrossSection::Box(s) => s.y,
            CrossSection::Circle(s) => s.d,
            CrossSection::Tube(s) => s.d,
            CrossSection::Heb(s) => s.width,
            CrossSection::Chs(s) => s.diameter,
        };
        w as u128 * 100_000
    }

    /// Height of the bounding box, fixed-point mm.
    pub fn height(&self) -> (r: u128)
        ensures
            r == self.height_of() * 100_000,
    {
        let h: u32 = match self {
            CrossSection::Rect(s) => s.z,
            CrossSection::Box(s) => s.z,
            CrossSection::Circle(s) => s.d,
            CrossSection::Tube(s) => s.d,
            CrossSection::Heb(s) => s.height,
            CrossSection::Chs(s) => s.diameter,
        };
        h as u128 * 100_000
    }

    /// The centroid, measured from the lower left corner of the bounding box:
    /// its centre, fixed-point mm.
    pub fn centroid(&self) -> (r: (u128, u128))
        ensures
            r.0 == self.width_of() * 50_000,
            r.1 == self.height_of() * 50_000,
    {
        (self.width() / 2, self.height() / 2)
    }
}

/// A modelled quantity, or `Unsupported`.
pub open spec fn or_unsupported(o: Option<int>) -> Result<u128, DesignError> {
    match o {
        Some(v) => Ok(v as u128),
        None => Err(DesignError::Unsupported),
    }
}

impl CrossSection {
    /// The area, fixed-point mm².
    pub fn area(&self) -> (r: u128)
        requires
            self.wf(),
        ensures
            r == self.area_of(),
    {
        match self {
            CrossSection::Rect(s) => prod2(s.y, s.z) * 10_000,
            CrossSection::Box(s) => {
                let yi = s.y - 2 * s.t;
                let zi = s.z - 2 * s.t;
                proof {
                    lemma_mul4_mono(yi as int, zi as int, 1, 1, s.y as int, s.z as int, 1, 1);
                }
                (prod2(s.y, s.z) - prod2(yi, zi)) * 10_000
            },
            CrossSection::Circle(s) => pi_mul(prod2(s.d, s.d), 2500, 1),
            CrossSection::Tube(s) => {
                let di = s.d - 2 * s.t;
                proof {
                    lemma_mul4_mono(di as int, di as int, 1, 1, s.d as int, s.d as int, 1, 1);
                }
                pi_mul(prod2(s.d, s.d) - prod2(di, di), 2500, 1)
            },
            CrossSection::Heb(s) => s.area as u128 * 1_000_000,
            CrossSection::Chs(s) => s.area as u128 * 1_000_000,
        }
    }

    /// The shear area for shear along an axis, fixed-point mm²;
    /// `Unsupported` where it is not modelled.
    pub fn area_shear(&self, axis: &Axis) -> (r: Result<u128, DesignError>)
        requires
            self.wf(),
        ensures
            r == or_unsupported(self.shear_area_of(*axis)),
    {
        match (self, axis) {
            (CrossSection::Heb(s), Axis::Y) => Ok(s.area_shear_y as u128 * 1_000_000),
            (CrossSection::Heb(s), Axis::Z) => Ok(s.area_shear_z as u128 * 1_000_000),
            (CrossSection::Chs(s), Axis::Y) => Ok(s.area_shear as u128 * 1_000_000),
            (CrossSection::Chs(s), Axis::Z) => Ok(s.area_shear as u128 * 1_000_000),
            _ => Err(DesignError::Unsupported),
        }
    }

    /// The second moment of area about an axis, fixed-point mm⁴;
    /// `Unsupported` about the member axis for shapes whose torsion constant
    /// is not modelled.
    pub fn inertia(&self, axis: &Axis) -> (r: Result<u128, DesignError>)
        requires
            self.wf(),
        ensures
            r == or_unsupported(self.inertia_of(*axis)),
    {
        match (self, axis) {
            (CrossSection::Chs(s), Axis::X) => Ok(s.inertia_x as u128 * 1_000_000),
            (_, Axis::X) => Err(DesignError::Unsupported),
            (CrossSection::Rect(s), Axis::Y) => Ok(prod4(s.y, s.z, s.z, s.z) * 25 / 3),
            (CrossSection::Rect(s), Axis::Z) => Ok(prod4(s.z, s.y, s.y, s.y) * 25 / 3),
            (CrossSection::Box(s), Axis::Y) => {
                let yi = s.y - 2 * s.t;
                let zi = s.z - 2 * s.t;
                proof {
                    lemma_mul4_mono(yi as int, zi as int, zi as int, zi as int, s.y as int, s.z as int, s.z as int, s.z as int);
                }
                Ok((prod4(s.y, s.z, s.z, s.z) - prod4(yi, zi, zi, zi)) * 25 / 3)
            },
            (CrossSection::Box(s), Axis::Z) => {
                let yi = s.y - 2 * s.t;
                let zi = s.z - 2 * s.t;
                proof {
                    lemma_mul4_mono(zi as int, yi as int, yi as int, yi as int, s.z as int, s.y as int, s.y as int, s.y as int);
                }
                Ok((prod4(s.z, s.y, s.y, s.y) - prod4(zi, yi, yi, yi)) * 25 / 3)
            },
            (CrossSection::Circle(s), _) => Ok(pi_mul(prod4(s.d, s.d, s.d, s.d), 25, 16)),
            (CrossSection::Tube(s), _) => {
                let di = s.d - 2 * s.t;
                proof {
                    lemma_mul4_mono(di as int, di as int, di as int, di as int, s.d as int, s.d as int, s.d as int, s.d as int);
                }
                Ok(pi_mul(prod4(s.d, s.d, s.d, s.d) - prod4(di, di, di, di), 25, 16))
            },
            (CrossSection::Heb(s), Axis::Y) => Ok(s.inertia_y as u128 * 1_000_000),
            (CrossSection::Heb(s), Axis::Z) => Ok(s.inertia_z as u128 * 1_000_000),
            (CrossSection::Chs(s), _) => Ok(s.inertia as u128 * 1_000_000),
        }
    }

    /// The elastic section modulus about an axis, fixed-point mm³;
    /// `Unsupported` about the member axis.
    pub fn w_el(&self, axis: &Axis) -> (r: Result<u128, DesignError>)
        requires
            self.wf(),
        ensures
            r == or_unsupported(self.w_el_of(*axis)),
    {
        match (self, axis) {
            (_, Axis::X) => Err(DesignError::Unsupported),
            (CrossSection::Rect(s), Axis::Y) => Ok(prod3(s.y, s.z, s.z) * 500 / 3),
            (CrossSection::Rect(s), Axis::Z) => Ok(prod3(s.z, s.y, s.y) * 500 / 3),
            (CrossSection::Box(s), Axis::Y) => {
                let yi = s.y - 2 * s.t;
                let zi = s.z - 2 * s.t;
                proof {
                    lemma_mul4_mono(yi as int, zi as int, zi as int, zi as int, s.y as int, s.z as int, s.z as int, s.z as int);
                }
                Ok((prod4(s.y, s.z, s.z, s.z) - prod4(yi, zi, zi, zi)) * 1000 / (6 * s.z as u128))
            },
            (CrossSection::Box(s), Axis::Z) => {
                let yi = s.y - 2 * s.t;
                let zi = s.z - 2 * s.t;
                proof {
                    lemma_mul4_mono(zi as int, yi as int, yi as int, yi as int, s.z as int, s.y as int, s.y as int, s.y as int);
                }
                Ok((prod4(s.z, s.y, s.y, s.y) - prod4(zi, yi, yi, yi)) * 1000 / (6 * s.y as u128))
            },
            (CrossSection::Circle(s), _) => Ok(pi_mul(prod3(s.d, s.d, s.d), 125, 4)),
            (CrossSection::Tube(s), _) => {
                let di = s.d - 2 * s.t;
                proof {
                    lemma_mul4_mono(di as int, di as int, di as int, di as int, s.d as int, s.d as int, s.d as int, s.d as int);
                }
                Ok(pi_mul(prod4(s.d, s.d, s.d, s.d) - prod4(di, di, di, di), 125, 4 * s.d as u128))
            },
            (CrossSection::Heb(s), Axis::Y) => Ok(s.w_elastic_y as u128 * 1_000_000),
            (CrossSection::Heb(s), Axis::Z) => Ok(s.w_elastic_z as u128 * 1_000_000),
            (CrossSection::Chs(s), _) => Ok(s.w_elastic as u128 * 1_000_000),
        }
    }

    /// The plastic section modulus about an axis, fixed-point mm³;
    /// `Unsupported` about the member axis.
    pub fn w_pl(&self, axis: &Axis) -> (r: Result<u128, DesignError>)
        requires
            self.wf(),
        ensures
            r == or_unsupported(self.w_pl_of(*axis)),
    {
        match (self, axis) {
            (_, Axis::X) => Err(DesignError::Unsupported),
            (CrossSection::Rect(s), Axis::Y) => Ok(prod3(s.y, s.z, s.z) * 250),
            (CrossSection::Rect(s), Axis::Z) => Ok(prod3(s.z, s.y, s.y) * 250),
            (CrossSection::Box(s), Axis::Y) => {
                let yi = s.y - 2 * s.t;
                let zi = s.z - 2 * s.t;
                proof {
                    lemma_mul4_mono(yi as int, zi as int, zi as int, 1, s.y as int, s.z as int, s.z as int, 1);
                }
                Ok((prod3(s.y, s.z, s.z) - prod3(yi, zi, zi)) * 250)
            },
            (CrossSection::Box(s), Axis::Z) => {
                let yi = s.y - 2 * s.t;
                let zi = s.z - 2 * s.t;
                proof {
                    lemma_mul4_mono(zi as int, yi as int, yi as int, 1, s.z as int, s.y as int, s.y as int, 1);
                }
                Ok((prod3(s.z, s.y, s.y) - prod3(zi, yi, yi)) * 250)
            },
            (CrossSection::Circle(s), _) => Ok(prod3(s.d, s.d, s.d) * 500 / 3),
            (CrossSection::Tube(s), _) => {
                let di = s.d - 2 * s.t;
                proof {
                    lemma_mul4_mono(di as int, di as int, di as int, 1, s.d as int, s.d as int, s.d as int, 1);
                }
                Ok((prod3(s.d, s.d, s.d) - prod3(di, di, di)) * 500 / 3)
            },
            (CrossSection::Heb(s), Axis::Y) => Ok(s.w_plastic_y as u128 * 1_000_000),
            (CrossSection::Heb(s), Axis::Z) => Ok(s.w_plastic_z as u128 * 1_000_000),
            (CrossSection::Chs(s), _) => Ok(s.w_plastic as u128 * 1_000_000),
        }
    }

    /// The effective section modulus of a class 4 section: the
    /// effective-width reduction is not modelled, so always `Unsupported`.
    pub fn w_eff(&self, axis: &Axis) -> (r: Result<u128, DesignError>)
        ensures
            r == Err::<u128, DesignError>(DesignError::Unsupported),
    {
        Err(DesignError::Unsupported)
    }

    /// The class of the section under a stress case, in steel of yield
    /// strength `fy` (MPa), that is `ε = √(235 / fy)`; `Unsupported` where
    /// the case does not apply to the shape.
    pub fn cross_section_class(&self, fy: u32, case: &CrossSectionClassCase) -> (r: Result<
        CrossSectionClass,
        DesignError,
    >)
        requires
            self.wf(),
        ensures
            r == match self.class_of(fy, *case) {
                Some(c) => Ok::<CrossSectionClass, DesignError>(c),
                None => Err(DesignError::Unsupported),
            },
    {
        match self {
            CrossSection::Heb(s) => match limits_for(*case) {
                Some(l) => {
                    if matches!(case, CrossSectionClassCase::FlangeCompression) {
                        let c = s.width as i64 - s.thickness_web as i64 - 2 * s.radius as i64;
                        Ok(classify_plate(c, 2 * s.thickness_flange, fy, &l))
                    } else {
                        let c = s.height as i64 - 2 * s.thickness_flange as i64 - 2 * s.radius as i64;
                        Ok(classify_plate(c, s.thickness_web, fy, &l))
                    }
                },
                None => Err(DesignError::Unsupported),
            },
            CrossSection::Chs(s) => match case {
                CrossSectionClassCase::WebBending | CrossSectionClassCase::WebCompression
                | CrossSectionClassCase::SingleParameter => Ok(
                    classify_tube(s.diameter, s.thickness_wall, fy),
                ),
                _ => Err(DesignError::Unsupported),
            },
            CrossSection::Tube(s) => match case {
                CrossSectionClassCase::WebBending | CrossSectionClassCase::WebCompression
                | CrossSectionClassCase::SingleParameter => Ok(classify_tube(s.d, s.t, fy)),
                _ => Err(DesignError::Unsupported),
            },
            _ => Err(DesignError::Unsupported),
        }
    }
}

/// Thicker plates never worsen the class of an I-section: with the outer
/// dimensions and root radius kept, a web and flanges at least as thick give
/// a class no higher under every stress case.
pub proof fn lemma_thicker_i_section_class_not_worse(
    s: CrsHEB,
    t: CrsHEB,
    fy: u32,
    case: CrossSectionClassCase,
)
    requires
        CrossSection::Heb(s).wf(),
        CrossSection::Heb(t).wf(),
        t.width == s.width,
        t.height == s.height,
        t.radius == s.radius,
        s.thickness_web <= t.thickness_web,
        s.thickness_flange <= t.thickness_flange,
        fy > 0,
        CrossSection::Heb(s).class_of(fy, case) is Some,
    ensures
        CrossSection::Heb(t).class_of(fy, case) is Some,
        CrossSection::Heb(t).class_of(fy, case)->0.rank() <= CrossSection::Heb(s).class_of(
            fy,
            case,
        )->0.rank(),
{
    let l = plate_limits(case)->0;
    if case is FlangeCompression {
        lemma_plate_class_mono(
            s.width - s.thickness_web - 2 * s.radius,
            2 * s.thickness_flange,
            t.width - t.thickness_web - 2 * t.radius,
            2 * t.thickness_flange,
            fy as int,
            l,
        );
    } else {
        lemma_plate_class_mono(
            s.height - 2 * s.thickness_flange - 2 * s.radius,
            s.thickness_web as int,
            t.height - 2 * t.thickness_flange - 2 * t.radius,
            t.thickness_web as int,
            fy as int,
            l,
        );
    }
}

/// A thicker wall never worsens the class of a circular hollow section of
/// the same diameter.
pub proof fn lemma_thicker_chs_class_not_worse(
    s: CrsCHS,
    t: CrsCHS,
    fy: u32,
    case: CrossSectionClassCase,
)
    requires
        CrossSection::Chs(s).wf(),
        CrossSection::Chs(t).wf(),
        t.diameter == s.diameter,
        s.thickness_wall <= t.thickness_wall,
        fy > 0,
        CrossSection::Chs(s).class_of(fy, case) is Some,
    ensures
        CrossSection::Chs(t).class_of(fy, case) is Some,
        CrossSection::Chs(t).class_of(fy, case)->0.rank() <= CrossSection::Chs(s).class_of(
            fy,
            case,
        )->0.rank(),
{
    lemma_tube_class_mono(s.diameter as int, s.thickness_wall as int, t.thickness_wall as int, fy as int);
}

/// For a rectangle the plastic modulus about the major axis is exactly
/// `b · h² / 4`, and the elastic modulus is `(b · h³ / 12) / (h / 2)`,
/// rounded down once (both in fixed-point mm³: a cube of a tenth of a
/// millimetre is 1000 steps).
pub proof fn lemma_rect_moduli(s: CrsRect)
    requires
        CrossSection::Rect(s).wf(),
    ensures
        CrossSection::Rect(s).w_pl_of(Axis::Y) == Some(1000 * (s.y * s.z * s.z) / 4),
        4 * CrossSection::Rect(s).w_pl_of(Axis::Y)->0 == 1000 * (s.y * s.z * s.z),
        CrossSection::Rect(s).w_el_of(Axis::Y) == Some(
            (1000 * 2 * (s.y * s.z * s.z * s.z)) / (12 * s.z),
        ),
{
    let y = s.y as int;
    let z = s.z as int;
    let a = y * z * z;
    assert(1000 * a / 4 == a * 250) by {
        assert(1000 * a == 4 * (a * 250));
        vstd::arithmetic::div_mod::lemma_div_multiples_vanish(a * 250, 4);
    }
    // (2000 · y · z³) / (12 · z) == (500 · y · z²) / 3
    let x = 1000 * 2 * (y * z * z * z);
    assert(y * z * z * z == z * a) by (nonlinear_arith)
        requires
            a == y * z * z,
    ;
    assert(x == z * (2000 * a)) by (nonlinear_arith)
        requires
            x == 1000 * 2 * (y * z * z * z),
            y * z * z * z == z * a,
    ;
    vstd::arithmetic::div_mod::lemma_div_denominator(x, z, 12);
    vstd::arithmetic::div_mod::lemma_div_multiples_vanish(2000 * a, z);
    assert(x / (z * 12) == (2000 * a) / 12);
    assert(12 * z == z * 12);
    vstd::arithmetic::div_mod::lemma_div_denominator(2000 * a, 4, 3);
    assert(2000 * a == 4 * (500 * a));
    vstd::arithmetic::div_mod::lemma_div_multiples_vanish(500 * a, 4);
    assert((2000 * a) / 12 == (500 * a) / 3);
    assert(a * 500 == 500 * a);
}

impl CrossSection {
    /// The properties of the section by name, fixed-point: the entries of
    /// `report`.
    pub open spec fn report_of(self) -> Seq<(&'static str, Result<u128, DesignError>)> {
        seq![
            ("width", Ok::<u128, DesignError>((self.width_of() * 100_000) as u128)),
            ("height", Ok::<u128, DesignError>((self.height_of() * 100_000) as u128)),
            ("area", Ok::<u128, DesignError>(self.area_of() as u128)),
            ("A_v_y", or_unsupported(self.shear_area_of(Axis::Y))),
            ("A_v_z", or_unsupported(self.shear_area_of(Axis::Z))),
            ("I_y", or_unsupported(self.inertia_of(Axis::Y))),
            ("I_z", or_unsupported(self.inertia_of(Axis::Z))),
            ("w_el_y", or_unsupported(self.w_el_of(Axis::Y))),
            ("w_pl_y", or_unsupported(self.w_pl_of(Axis::Y))),
            ("w_el_z", or_unsupported(self.w_el_of(Axis::Z))),
            ("w_pl_z", or_unsupported(self.w_pl_of(Axis::Z))),
        ]
    }

    /// The properties of the section as named fixed-point values, for a
    /// report: bounding box, area, shear areas, second moments of area and
    /// section moduli about both axes.
    pub fn report(&self) -> (r: Vec<(&'static str, Result<u128, DesignError>)>)
        requires
            self.wf(),
        ensures
            r@ == self.report_of(),
    {
        let mut v: Vec<(&'static str, Result<u128, DesignError>)> = Vec::new();
        v.push(("width", Ok(self.width())));
        v.push(("height", Ok(self.height())));
        v.push(("area", Ok(self.area())));
        v.push(("A_v_y", self.area_shear(&Axis::Y)));
        v.push(("A_v_z", self.area_shear(&Axis::Z)));
        v.push(("I_y", self.inertia(&Axis::Y)));
        v.push(("I_z", self.inertia(&Axis::Z)));
        v.push(("w_el_y", self.w_el(&Axis::Y)));
        v.push(("w_pl_y", self.w_pl(&Axis::Y)));
        v.push(("w_el_z", self.w_el(&Axis::Z)));
        v.push(("w_pl_z", self.w_pl(&Axis::Z)));
        assert(v@ =~= self.report_of());
        v
    }
}

impl CrossSection {
    /// Whether the section is well formed (see `wf`).
    pub fn is_valid(&self) -> (r: bool)
        ensures
            r == self.wf(),
    {
        match self {
            CrossSection::Rect(s) => 0 < s.y && s.y <= DIM_MAX && 0 < s.z && s.z <= DIM_MAX,
            CrossSection::Box(s) => 0 < s.y && s.y <= DIM_MAX && 0 < s.z && s.z <= DIM_MAX && 0 < s.t
                && s.t <= DIM_MAX && 2 * s.t < s.y && 2 * s.t < s.z,
            CrossSection::Circle(s) => 0 < s.d && s.d <= DIM_MAX,
            CrossSection::Tube(s) => 0 < s.d && s.d <= DIM_MAX && 0 < s.t && s.t <= DIM_MAX && 2 * s.t
                < s.d,
            CrossSection::Heb(s) => 0 < s.width && s.width <= DIM_MAX && 0 < s.height && s.height
                <= DIM_MAX && 0 < s.thickness_web && s.thickness_web <= DIM_MAX && 0
                < s.thickness_flange && s.thickness_flange <= DIM_MAX && s.radius <= DIM_MAX && s.area
                > 0 && s.area_shear_y > 0 && s.area_shear_z > 0 && s.w_elastic_y > 0 && s.w_elastic_z
                > 0 && s.w_plastic_y > 0 && s.w_plastic_z > 0 && s.inertia_y > 0 && s.inertia_z > 0,
            CrossSection::Chs(s) => 0 < s.diameter && s.diameter <= DIM_MAX && 0 < s.thickness_wall
                && s.thickness_wall <= DIM_MAX && s.area > 0 && s.area_shear > 0 && s.w_elastic > 0
                && s.w_plastic > 0 && s.inertia > 0 && s.inertia_x > 0,
        }
    }
}

} // verus!
