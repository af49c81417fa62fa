use emsdesign::catalog::CrossSectionLib;
use emsdesign::err::DesignError;
use emsdesign::section::{Circle, CrossSection, CrsBox, CrsCHS, CrsHEB, CrsRect, CrsTube, Variant};
use emsdesign::Axis;

const TOLERANCE: f64 = 0.0001;

fn as_f64(v: u128) -> f64 {
    v as f64 / 1_000_000.0
}

fn zeq(a: f64, b: f64) -> bool {
    (a - b).abs() < TOLERANCE
}

fn ok(r: Result<u128, DesignError>) -> f64 {
    as_f64(r.expect("quantity is modelled"))
}

#[test]
fn box_create_cross_section() {
    let crs = CrsBox::new(500, 1000, 10).expect("valid box");
    assert_eq!(crs.y, 500);
    assert_eq!(crs.z, 1000);
    assert_eq!(crs.t, 10);
}

#[test]
fn box_area_cross_section() {
    let crs = CrossSection::Box(CrsBox::new(500, 1000, 100).unwrap());
    assert!(zeq(as_f64(crs.area()), 50.0 * 100.0 - 30.0 * 80.0));
}

#[test]
fn box_centroid_cross_section() {
    let crs = CrossSection::Box(CrsBox::new(500, 1000, 100).unwrap());
    let c = crs.centroid();
    assert!(zeq(as_f64(c.0), 25.0));
    assert!(zeq(as_f64(c.1), 50.0));
}

#[test]
fn box_second_moment_of_area() {
    let crs = CrossSection::Box(CrsBox::new(500, 1000, 100).unwrap());
    assert!(zeq(ok(crs.inertia(&Axis::Y)), 2_886_666.666666));
    assert!(zeq(ok(crs.inertia(&Axis::Z)), 861_666.666666));
}

#[test]
fn box_bending_moment() {
    let crs = CrossSection::Box(CrsBox::new(500, 1000, 100).unwrap());
    assert!(zeq(ok(crs.w_el(&Axis::Y)), 2_886_666.666666 / 50.0));
    assert!(zeq(ok(crs.w_el(&Axis::Z)), 861_666.666666 / 25.0));
}

#[test]
fn circle_create_cross_section() {
    let crs = Circle::new(1000).expect("valid circle");
    assert_eq!(crs.d, 1000);
}

#[test]
fn circle_area_cross_section() {
    let crs = CrossSection::Circle(Circle::new(1000).unwrap());
    assert!(zeq(as_f64(crs.area()), std::f64::consts::PI * 50.0f64.powi(2)));
}

#[test]
fn circle_centroid_cross_section() {
    let crs = CrossSection::Circle(Circle::new(1000).unwrap());
    let c = crs.centroid();
    assert!(zeq(as_f64(c.0), 50.0));
    assert!(zeq(as_f64(c.1), 50.0));
}

#[test]
fn circle_second_moment_of_area() {
    let crs = CrossSection::Circle(Circle::new(1000).unwrap());
    let expected = std::f64::consts::PI / 4.0 * 50.0f64.powi(4);
    assert!(zeq(ok(crs.inertia(&Axis::Y)), expected));
    assert!(zeq(ok(crs.inertia(&Axis::Z)), expected));
}

#[test]
fn circle_bending_moment() {
    let crs = CrossSection::Circle(Circle::new(1000).unwrap());
    let expected = std::f64::consts::PI / 4.0 * 50.0f64.powi(3);
    assert!(zeq(ok(crs.w_el(&Axis::Y)), expected));
    assert!(zeq(ok(crs.w_el(&Axis::Z)), expected));
}

#[test]
fn mod_can_collect_vector_from_section_names() {
    let res = CrossSectionLib::sections(&Variant::CHS);
    assert_eq!(res.len(), 166);
    assert_eq!(res[0], "CHS 21.3x2.6");
}

#[test]
fn can_get_heb_beam() {
    let heb100 = CrossSectionLib::get(&Variant::HEB, "HEB 100").expect("HEB 100 in catalog");
    assert!(zeq(as_f64(heb100.height()), 100.0));
    let heb400 = CrossSectionLib::get(&Variant::HEB, "HEB 400").expect("HEB 400 in catalog");
    assert!(zeq(as_f64(heb400.height()), 400.0));
}

#[test]
fn create_rectangular_cross_section() {
    let crs = CrsRect::new(20, 30).expect("valid rectangle");
    assert_eq!(crs.y, 20);
    assert_ne!(crs.z, 20);
}

#[test]
fn area_rectangular_cross_section() {
    let crs = CrossSection::Rect(CrsRect::new(20, 30).unwrap());
    assert!(zeq(as_f64(crs.area()), 6.0));
}

#[test]
fn centroid_rectangular_cross_section() {
    let crs = CrossSection::Rect(CrsRect::new(20, 30).unwrap());
    let c = crs.centroid();
    assert!(zeq(as_f64(c.0), 1.0));
    assert!(zeq(as_f64(c.1), 1.5));
}

#[test]
fn second_moment_of_area_rectangular_cross_section() {
    let crs = CrossSection::Rect(CrsRect::new(1000, 3000).unwrap());
    assert!(zeq(ok(crs.inertia(&Axis::Y)), 225_000_000.0));
    assert!(zeq(ok(crs.inertia(&Axis::Z)), 25_000_000.0));
}

#[test]
fn bending_moment_rectangular_cross_section() {
    let crs = CrossSection::Rect(CrsRect::new(1000, 3000).unwrap());
    assert!(zeq(ok(crs.w_el(&Axis::Y)), 1_500_000.0));
    assert!(zeq(ok(crs.w_el(&Axis::Z)), 500_000.0));
}

#[test]
fn tube_create_cross_section() {
    let crs = CrsTube::new(1000, 100).expect("valid tube");
    assert_eq!(crs.d, 1000);
    assert_ne!(crs.t, 1000);
}

#[test]
fn tube_area_cross_section() {
    let crs = CrossSection::Tube(CrsTube::new(1000, 100).unwrap());
    assert!(zeq(as_f64(crs.area()), std::f64::consts::PI * (50.0 * 50.0 - 40.0 * 40.0)));
}

#[test]
fn tube_centroid_cross_section() {
    let crs = CrossSection::Tube(CrsTube::new(1000, 100).unwrap());
    let c = crs.centroid();
    assert!(zeq(as_f64(c.0), 50.0));
    assert!(zeq(as_f64(c.1), 50.0));
}

#[test]
fn tube_second_moment_of_area() {
    let crs = CrossSection::Tube(CrsTube::new(1000, 100).unwrap());
    assert!(zeq(ok(crs.inertia(&Axis::Y)), 2_898_119.222_936));
    assert!(zeq(ok(crs.inertia(&Axis::Z)), 2_898_119.222_936));
}

#[test]
fn tube_bending_moment() {
    let crs = CrossSection::Tube(CrsTube::new(1000, 100).unwrap());
    assert!(zeq(ok(crs.w_el(&Axis::Y)), 57_962.384_458));
    assert!(zeq(ok(crs.w_el(&Axis::Z)), 57_962.384_458));
}

#[test]
fn rectangle_moduli_closed_form() {
    // b = 100 mm, h = 200 mm
    let crs = CrossSection::Rect(CrsRect::new(1000, 2000).unwrap());
    assert_eq!(crs.w_pl(&Axis::Y), Ok(100 * 200 * 200 / 4 * 1_000_000));
    let w_el = ok(crs.w_el(&Axis::Y));
    assert!(zeq(w_el, 100.0 * 200.0f64.powi(3) / 12.0 / 100.0));
    assert_eq!(crs.w_pl(&Axis::Z), Ok(200 * 100 * 100 / 4 * 1_000_000));
}

#[test]
fn box_plastic_modulus() {
    let crs = CrossSection::Box(CrsBox::new(500, 1000, 100).unwrap());
    assert!(zeq(ok(crs.w_pl(&Axis::Y)), (50.0 * 100.0 * 100.0 - 30.0 * 80.0 * 80.0) / 4.0));
}

#[test]
fn invalid_dimensions_are_rejected() {
    assert_eq!(CrsRect::new(0, 10), Err(DesignError::InvalidInput));
    assert_eq!(CrsRect::new(10, 100_001), Err(DesignError::InvalidInput));
    assert_eq!(CrsBox::new(100, 100, 50), Err(DesignError::InvalidInput));
    assert_eq!(CrsTube::new(100, 0), Err(DesignError::InvalidInput));
    assert_eq!(Circle::new(0), Err(DesignError::InvalidInput));
}

#[test]
fn unknown_catalog_name_is_not_found() {
    assert_eq!(CrossSectionLib::get(&Variant::HEB, "HEB 101"), Err(DesignError::NotFound));
    assert_eq!(CrossSectionLib::get(&Variant::CHS, "HEB 100"), Err(DesignError::NotFound));
    assert_eq!(CrsHEB::from_key("heb 100"), None);
    assert_eq!(CrsCHS::from_key(""), None);
}

#[test]
fn catalog_lookup_returns_the_named_row() {
    let chs = CrsCHS::from_key("CHS 48.3x5").expect("in catalog");
    assert_eq!(chs.diameter, 483);
    assert_eq!(chs.thickness_wall, 50);
    assert_eq!(CrossSectionLib::sections(&Variant::HEB).len(), 24);
    assert_eq!(CrsHEB::from_key("HEB 100"), Some(CrsHEB::default()));
    assert_eq!(CrsCHS::from_key("CHS 21.3x2.6"), Some(CrsCHS::default()));
    let heb1000 = CrsHEB::from_key("HEB 1000").expect("in catalog");
    assert_eq!((heb1000.height, heb1000.thickness_web, heb1000.area), (10_000, 190, 40_000));
    match CrossSectionLib::get(&Variant::CHS, "CHS 48.3x5") {
        Ok(CrossSection::Chs(s)) => assert_eq!(s, chs),
        other => panic!("unexpected lookup result {:?}", other),
    }
}

#[test]
fn unmodelled_quantities_are_unsupported() {
    let rect = CrossSection::Rect(CrsRect::default());
    assert_eq!(rect.inertia(&Axis::X), Err(DesignError::Unsupported));
    assert_eq!(rect.area_shear(&Axis::Y), Err(DesignError::Unsupported));
    assert_eq!(rect.w_el(&Axis::X), Err(DesignError::Unsupported));
    assert_eq!(rect.w_eff(&Axis::Y), Err(DesignError::Unsupported));
    let heb = CrossSection::Heb(CrsHEB::default());
    assert_eq!(heb.inertia(&Axis::X), Err(DesignError::Unsupported));
    let chs = CrossSection::Chs(CrsCHS::default());
    assert_eq!(chs.inertia(&Axis::X), Ok(13_600 * 1_000_000));
    assert_eq!(chs.area_shear(&Axis::Z), Ok(81 * 1_000_000));
    assert_eq!(heb.variant(), Some(Variant::HEB));
    assert_eq!(rect.variant(), None);
    assert!(heb.is_open_shape());
    assert!(!chs.is_open_shape());
}

#[test]
fn variant_names() {
    assert_eq!(Variant::get("HEB"), Some(Variant::HEB));
    assert_eq!(Variant::get("CHS"), Some(Variant::CHS));
    assert_eq!(Variant::get("IPE"), None);
    assert_eq!(Axis::get("Y"), Some(Axis::Y));
    assert_eq!(Axis::get("y"), None);
}
