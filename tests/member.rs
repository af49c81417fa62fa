use emsdesign::buckling::{BuckleCurve, LTBCurve};
use emsdesign::catalog::CrossSectionLib;
use emsdesign::classify::{CrossSectionClass, CrossSectionClassCase};
use emsdesign::err::DesignError;
use emsdesign::material::{Class, Steel};
use emsdesign::member::{ColumnBeam, LoadCase, Table6_7};
use emsdesign::section::{CrossSection, CrsCHS, CrsHEB, CrsRect, Variant};
use emsdesign::{Axis, LimitStateType};

const TOLERANCE: f64 = 0.0001;

fn as_f64(v: u128) -> f64 {
    v as f64 / 1_000_000.0
}

fn fx(v: f64) -> u128 {
    (v * 1_000_000.0).round() as u128
}

fn zeq(a: f64, b: f64) -> bool {
    (a - b).abs() < TOLERANCE
}

fn ok(r: Result<u128, DesignError>) -> f64 {
    as_f64(r.expect("quantity is modelled"))
}

fn heb(name: &str) -> ColumnBeam {
    let crs = CrsHEB::from_key(name).expect("Could not extract section");
    ColumnBeam::new(CrossSection::Heb(crs), Steel::from(&Class::S355))
}

#[test]
fn axial_cap() {
    let mmb = ColumnBeam::default();
    assert!(zeq(ok(mmb.N_pl(&LimitStateType::K)), 923_000.0));
}

#[test]
fn axial_cap_circle() {
    let mmb = ColumnBeam::new(CrossSection::Heb(CrsHEB::default()), Steel::default());
    assert!(zeq(ok(mmb.N_pl(&LimitStateType::K)), 923_000.0));
}

#[test]
fn moment_cap() {
    let mmb = ColumnBeam::default();
    assert!(zeq(ok(mmb.M_el(&Axis::Y, &LimitStateType::K)), 31_914_500.0));
}

#[test]
fn ea() {
    let mmb = ColumnBeam::default();
    assert!(zeq(ok(mmb.EA()), 546_000_000.0));
}

#[test]
fn ei_y() {
    let mmb = ColumnBeam::default();
    assert!(zeq(ok(mmb.EI(&Axis::Y)), 945_000_000_000.0));
}

#[test]
fn ei_z() {
    let mmb = ColumnBeam::default();
    assert!(zeq(ok(mmb.EI(&Axis::Z)), 350_700_000_000.0));
}

#[test]
fn gi() {
    // the catalog gives no torsion constant for HEB sections
    let mmb = ColumnBeam::default();
    assert_eq!(mmb.GI(&Axis::X), Err(DesignError::Unsupported));
    let chs = ColumnBeam::new(CrossSection::Chs(CrsCHS::default()), Steel::default());
    let expected = 13_600.0 * 210_000.0 / 2.6;
    assert!((ok(chs.GI(&Axis::X)) - expected).abs() < expected * 1e-8);
}

#[test]
fn m_0_cr() {
    let mmb = ColumnBeam::default();
    assert_eq!(mmb.M_0_cr(fx(10000.0)), Err(DesignError::Unsupported));
    let chs = ColumnBeam::new(CrossSection::Chs(CrsCHS::default()), Steel::default());
    let gi: f64 = 13_600.0 * 210_000.0 / 2.6;
    let ei: f64 = 6_800.0 * 210_000.0;
    let expected = std::f64::consts::PI / 10_000.0 * (gi * ei).sqrt();
    assert!((ok(chs.M_0_cr(fx(10000.0))) - expected).abs() < 0.01);
}

#[test]
fn euler_load() {
    let mmb = ColumnBeam::default();
    assert!(zeq(ok(mmb.euler_load(fx(10_000.0), &Axis::Z)), 34_612.702_634_620_38));
}

#[test]
fn lambda() {
    let mmb = ColumnBeam::default();
    let ncr = mmb.euler_load(fx(10_000.0), &Axis::Z).unwrap();
    assert!(zeq(ok(mmb.lambda(ncr)), 5.163_962));
}

#[test]
fn lambda_lT() {
    let chs = ColumnBeam::new(CrossSection::Chs(CrsCHS::default()), Steel::default());
    let mcr = chs.M_cr(fx(10_000.0), fx(1.35)).unwrap();
    // class 1 (d / t = 8.2): W_pl,y = 920 mm³
    let expected = (920.0 * 355.0 / as_f64(mcr)).sqrt();
    assert!(zeq(ok(chs.lambda_lt(mcr)), expected));
    assert_eq!(ColumnBeam::default().M_cr(fx(10_000.0), fx(1.35)), Err(DesignError::Unsupported));
}

#[test]
fn dbg_all_heb_crossection_classes_in_web_bending() {
    for section in CrossSectionLib::sections(&Variant::HEB) {
        let cmb = heb(section);
        let class = cmb.cross_section_class(&CrossSectionClassCase::WebBending).expect("modelled");
        println!("Section: {}, Cross_section_class:{}", section, class.describe());
    }
}

#[test]
fn dbg_all_heb_crossection_classes_in_web_compression() {
    for section in CrossSectionLib::sections(&Variant::HEB) {
        let cmb = heb(section);
        let class = cmb.cross_section_class(&CrossSectionClassCase::WebCompression).expect("modelled");
        println!("Section: {}, Cross_section_class:{}", section, class.describe());
    }
}

#[test]
fn heb1000_s355_web_gives_cross_section_class_1_in_pure_bending() {
    let cmb = heb("HEB 1000");
    assert_eq!(cmb.cross_section_class(&CrossSectionClassCase::WebBending), Ok(CrossSectionClass::One));
}

#[test]
fn heb1000_s355_web_gives_cross_section_class_4_in_pure_compression() {
    let cmb = heb("HEB 1000");
    assert_eq!(cmb.cross_section_class(&CrossSectionClassCase::WebCompression), Ok(CrossSectionClass::Four));
}

#[test]
fn heb800_s355_web_gives_cross_section_class_3_in_pure_compression() {
    let cmb = heb("HEB 800");
    assert_eq!(cmb.cross_section_class(&CrossSectionClassCase::WebCompression), Ok(CrossSectionClass::Four));
}

#[test]
fn heb100_s355_web_gives_cross_section_class_3_in_pure_compression() {
    let cmb = heb("HEB 600");
    assert_eq!(cmb.cross_section_class(&CrossSectionClassCase::WebCompression), Ok(CrossSectionClass::Three));
}

#[test]
fn classes_are_per_case() {
    let cmb = heb("HEB 1000");
    assert_eq!(cmb.cross_section_class(&CrossSectionClassCase::FlangeCompression), Ok(CrossSectionClass::One));
    assert_eq!(cmb.cross_section_class(&CrossSectionClassCase::WebBendingAndCompression), Err(DesignError::Unsupported));
    let chs = ColumnBeam::new(CrossSection::Chs(CrsCHS::from_key("CHS 48.3x5").unwrap()), Steel::from(&Class::S235));
    assert_eq!(chs.cross_section_class(&CrossSectionClassCase::SingleParameter), Ok(CrossSectionClass::One));
    assert_eq!(chs.cross_section_class(&CrossSectionClassCase::FlangeCompression), Err(DesignError::Unsupported));
    let rect = ColumnBeam::new(CrossSection::Rect(CrsRect::default()), Steel::default());
    assert_eq!(rect.cross_section_class(&CrossSectionClassCase::WebBending), Err(DesignError::Unsupported));
}

#[test]
fn rectangle_axial_plastic_capacity() {
    let steel = Steel::from(&Class::S355);
    let mmb = ColumnBeam::new(CrossSection::Rect(CrsRect::new(1000, 2000).unwrap()), steel);
    assert_eq!(mmb.N_pl(&LimitStateType::K), Ok(7_100_000 * 1_000_000));
    assert!(zeq(ok(mmb.M_pl(&Axis::Y, &LimitStateType::K)), 100.0 * 200.0 * 200.0 / 4.0 * 355.0));
}

#[test]
fn shear_capacity_and_self_weight() {
    let mmb = ColumnBeam::default();
    let v = ok(mmb.V_pl(&Axis::Z, &LimitStateType::K));
    assert!((v - 540.0 * 355.0 / 3f64.sqrt()).abs() < 0.01);
    assert!(zeq(ok(mmb.self_weight_kg_per_meter()), 2600.0 / 1e6 * 7850.0));
    assert!(zeq(ok(mmb.self_weight_kN_per_meter()), 2600.0 / 1e6 * 7850.0 * 9.80665 / 1000.0));
    let rect = ColumnBeam::new(CrossSection::Rect(CrsRect::default()), Steel::default());
    assert_eq!(rect.V_pl(&Axis::Y, &LimitStateType::K), Err(DesignError::Unsupported));
}

#[test]
fn cross_section_check_of_member() {
    let mmb = ColumnBeam::default();
    let load = LoadCase::from_kn(fx(100.0), 0, fx(5.0), fx(2.0)).unwrap();
    let n = 100_000.0 / (2600.0 * 355.0 / 1.05);
    let my = 5e6 / (104_000.0 * 355.0 / 1.05);
    let mz = 2e6 / (51_000.0 * 355.0 / 1.05);
    assert!(zeq(ok(mmb.dc_6_2(&load)), n + my + mz));
}

#[test]
fn flexural_buckling_check() {
    let mmb = ColumnBeam::default();
    let load = LoadCase::from_kn(fx(10.0), 0, 0, 0).unwrap();
    let cap = ok(mmb.buckle_cap(fx(3000.0), &Axis::Z, &BuckleCurve::C, &LimitStateType::D));
    let chi = ok(mmb.khi(fx(3000.0), &Axis::Z, &BuckleCurve::C));
    assert!(chi > 0.0 && chi < 1.0);
    assert!((cap - chi * 2600.0 * 355.0 / 1.05).abs() < 0.01);
    assert!(zeq(ok(mmb.dc_6_46(&load, fx(3000.0), &Axis::Z, &BuckleCurve::C)), 10_000.0 / cap));
}

#[test]
fn combined_checks_on_a_hollow_section() {
    let crs = CrsCHS::from_key("CHS 48.3x5").unwrap();
    let mmb = ColumnBeam::new(CrossSection::Chs(crs), Steel::from(&Class::S355));
    let load = LoadCase::from_kn(fx(20.0), 0, fx(0.5), fx(0.2)).unwrap();
    let checks = mmb.dc(&load, fx(0.9), fx(0.9), fx(1.0), fx(1500.0), fx(1500.0), fx(1500.0), &BuckleCurve::A, &BuckleCurve::A, &LTBCurve::D);
    let u61 = ok(checks.util_6_61);
    let u62 = ok(checks.util_6_62);
    assert!(u61 > 0.0 && u62 > 0.0);
    assert_eq!(checks.util_6_61, mmb.dc_6_61(&load, fx(0.9), fx(0.9), fx(1.0), fx(1500.0), &BuckleCurve::A, &LTBCurve::D));
    let g = ok(checks.governing());
    for u in [checks.util_6_2, checks.util_6_46_y, checks.util_6_46_z, checks.util_6_61, checks.util_6_62] {
        assert!(ok(u) <= g);
    }
}

#[test]
fn combined_checks_of_open_section_need_torsion_constant() {
    let mmb = ColumnBeam::default();
    let load = LoadCase::from_kn(fx(20.0), 0, fx(1.0), 0).unwrap();
    let r = mmb.dc_6_61(&load, fx(1.0), fx(1.0), fx(1.0), fx(2000.0), &BuckleCurve::B, &LTBCurve::B);
    assert_eq!(r, Err(DesignError::Unsupported));
    let checks = mmb.dc(&load, fx(1.0), fx(1.0), fx(1.0), fx(2000.0), fx(2000.0), fx(2000.0), &BuckleCurve::B, &BuckleCurve::C, &LTBCurve::B);
    assert!(checks.util_6_2.is_ok());
    assert_eq!(checks.governing(), Err(DesignError::Unsupported));
}

#[test]
fn slender_sections_are_unsupported() {
    let heb1000 = CrossSection::Heb(CrsHEB::from_key("HEB 1000").unwrap());
    assert_eq!(Table6_7::from_crs_class(&heb1000, &CrossSectionClass::Four), Err(DesignError::Unsupported));
    let t = Table6_7::from_crs_class(&heb1000, &CrossSectionClass::Three).unwrap();
    assert_eq!(t.Wy, heb1000.w_el(&Axis::Y).unwrap());
    let t = Table6_7::from_crs_class(&heb1000, &CrossSectionClass::One).unwrap();
    assert_eq!(t.Wz, heb1000.w_pl(&Axis::Z).unwrap());
    assert_eq!(t.delta_My_Ed, 0);
}

#[test]
fn load_case_units() {
    let load = LoadCase::from_kn(fx(1.5), fx(2.0), fx(3.0), fx(4.0)).unwrap();
    assert_eq!(load.N, 1_500 * 1_000_000);
    assert_eq!(load.My, 3_000_000 * 1_000_000);
    assert_eq!(LoadCase::new().N, 0);
    assert_eq!(LoadCase::from_kn(u128::MAX, 0, 0, 0), Err(DesignError::InvalidInput));
}

#[test]
fn member_report_lists_named_quantities() {
    let mmb = ColumnBeam::default();
    let report = mmb.report();
    assert_eq!(report.len(), 22);
    assert_eq!(report[0], ("EA", mmb.EA()));
    assert_eq!(report[5].0, "Cross_section_class_web_bending");
    assert_eq!(report[5].1, Ok(1_000_000));
    assert_eq!(report[8], ("N_pl_k", Ok(923_000 * 1_000_000)));
    let section = mmb.crs.report();
    assert_eq!(section.len(), 11);
    assert_eq!(section[2], ("area", Ok(2600 * 1_000_000)));
    let steel = mmb.mat.report();
    assert_eq!(steel[0], ("E", 210_000 * 1_000_000));
    assert_eq!(steel[3], ("f_y_d", 338_095_238));
    assert!(mmb.crs.is_valid() && mmb.mat.is_valid());
    let bad = CrossSection::Rect(CrsRect { y: 0, z: 10 });
    assert!(!bad.is_valid());
}
