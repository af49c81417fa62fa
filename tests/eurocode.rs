use emsdesign::buckling::{
    f_6_47, f_6_49, f_6_49_lambda, f_6_49_phi, f_6_56, f_6_56_lambda_lt, f_6_56_phi_lt,
    BuckleCurve, LTBCurve,
};
use emsdesign::classify::{classify_plate, classify_tube, limits_for, CrossSectionClass, CrossSectionClassCase};
use emsdesign::fixed::{isqrt, SCALE};
use emsdesign::interaction::{
    f_6_2, f_6_29, f_6_61, f_6_61_util_my, f_6_61_util_mz, f_6_61_util_n, f_6_62, TableB_1,
};
use emsdesign::err::DesignError;
use emsdesign::LimitStateType;

const TOLERANCE: f64 = 0.0001;

fn as_f64(v: u128) -> f64 {
    v as f64 / 1_000_000.0
}

fn fx(v: f64) -> u128 {
    (v * 1_000_000.0).round() as u128
}

fn zeq(a: f64, b: f64) -> bool {
    (a - b).abs() < TOLERANCE
}

#[test]
fn test_f_6_2() {
    let util = f_6_2(fx(100.0), fx(100.0), fx(100.0), fx(300.0), fx(300.0), fx(300.0));
    assert!(zeq(as_f64(util.unwrap()), 1.0));
}

#[test]
fn cross_section_check_of_equal_thirds_is_exactly_one() {
    let util = f_6_2(fx(100.0), fx(100.0), fx(100.0), fx(300.0), fx(300.0), fx(300.0));
    assert_eq!(util, Some(1_000_000));
    assert_eq!(f_6_2(fx(150.0), 0, 0, fx(300.0), fx(1.0), fx(1.0)), Some(500_000));
}

#[test]
fn test_f_6_47() {
    let res = f_6_47(fx(0.6), fx(1000.0), fx(355.0), fx(1.1));
    assert!(zeq(as_f64(res), 193_636.363_636_363_62));
}

#[test]
fn function_f_6_49_yields_correct_value_for_normal_input() {
    assert!(zeq(as_f64(f_6_49(fx(2.2), fx(2.0))), 0.320_871));
}

#[test]
fn function_f_6_49_clamps_result_correctly() {
    assert!(zeq(as_f64(f_6_49(fx(0.2), fx(0.0))), 1.0));
}

#[test]
fn test_buckle_curve_function() {
    assert!(zeq(as_f64(BuckleCurve::A0.alpha()), 0.13));
}

#[test]
fn test_lambda_function() {
    let res = f_6_49_lambda(fx(1000.0), fx(355.0), fx(10000.0)).unwrap();
    assert!(zeq(as_f64(res), 5.958_187));
}

#[test]
fn test_phi_function() {
    let res = f_6_49_phi(fx(0.2), fx(2.0));
    assert!(zeq(as_f64(res), 2.68));
}

#[test]
fn chi_scenario_curve_c() {
    // curve C, φ = 2.2, λ̄ = 2.0
    assert_eq!(BuckleCurve::C.alpha(), 490_000);
    let chi = f_6_49(fx(2.2), fx(2.0));
    let expected = 1.0 / (2.2 + (2.2f64.powi(2) - 2.0f64.powi(2)).sqrt());
    assert!((as_f64(chi) - expected).abs() < 2e-6);
    assert!(zeq(as_f64(chi), 0.320_871));
}

#[test]
fn chi_is_one_at_zero_slenderness() {
    for curve in [BuckleCurve::A0, BuckleCurve::A, BuckleCurve::B, BuckleCurve::C, BuckleCurve::D] {
        let phi = f_6_49_phi(curve.alpha(), 0);
        assert_eq!(f_6_49(phi, 0), SCALE);
    }
    for curve in [LTBCurve::A, LTBCurve::B, LTBCurve::C, LTBCurve::D] {
        let phi = f_6_56_phi_lt(curve.alpha(), 0);
        assert_eq!(f_6_56(phi, 0), SCALE);
    }
}

#[test]
fn chi_between_zero_and_one() {
    for curve in [BuckleCurve::A0, BuckleCurve::A, BuckleCurve::B, BuckleCurve::C, BuckleCurve::D] {
        for lam in [0.0, 0.1, 0.2, 0.5, 1.0, 2.0, 5.0, 40.0] {
            let l = fx(lam);
            let chi = f_6_49(f_6_49_phi(curve.alpha(), l), l);
            assert!(chi <= SCALE);
            if lam > 0.3 {
                assert!(chi < SCALE);
            }
        }
    }
}

#[test]
fn slenderness_for_lateral_torsional_buckling() {
    assert!(zeq(as_f64(f_6_56_lambda_lt(fx(1000.0), fx(355.0), fx(10000.0)).unwrap()), 5.958_187));
    assert!(zeq(as_f64(LTBCurve::D.alpha()), 0.76));
}

#[test]
fn integer_square_root() {
    assert_eq!(isqrt(0), 0);
    assert_eq!(isqrt(15), 3);
    assert_eq!(isqrt(16), 4);
    assert_eq!(isqrt(u128::MAX), u64::MAX as u128);
}

#[test]
fn reduced_strength_for_shear() {
    assert_eq!(f_6_29(fx(355.0), fx(0.2)), Some(fx(284.0)));
    assert_eq!(f_6_29(fx(355.0), fx(1.5)), None);
}

#[test]
fn cross_section_check_fails_on_zero_resistance() {
    assert_eq!(f_6_2(1, 1, 1, 0, 1, 1), None);
}

#[test]
fn combined_check_terms() {
    // N_Ed = 100 kN against χ · N_Rk / γ = 0.5 · 1000 / 1.0 kN
    let un = f_6_61_util_n(fx(100_000.0), fx(0.5), fx(1_000_000.0), fx(1.0)).unwrap();
    assert!(zeq(as_f64(un), 0.2));
    // k · M / (χ_LT · M_Rk / γ) = 1.0 · 10 / (0.5 · 100 / 1.0)
    let umy = f_6_61_util_my(fx(10.0), 0, fx(100.0), fx(1.0), fx(0.5), fx(1.0)).unwrap();
    assert!(zeq(as_f64(umy), 0.2));
    let umz = f_6_61_util_mz(fx(10.0), 0, fx(100.0), fx(0.5), fx(1.0)).unwrap();
    assert!(zeq(as_f64(umz), 0.05));
    assert_eq!(f_6_61(un, umy, umz), f_6_62(un, umy, umz));
    assert!(zeq(as_f64(f_6_61(un, umy, umz).unwrap()), 0.45));
}

#[test]
fn interaction_factors_depend_on_class_and_shape() {
    let c = fx(0.9);
    let lam = fx(1.2);
    let u = fx(0.5);
    let open = TableB_1::from_factors(CrossSectionClass::One, true, c, c, lam, lam, u, u).unwrap();
    let closed = TableB_1::from_factors(CrossSectionClass::One, false, c, c, lam, lam, u, u).unwrap();
    // open: min(0.9 (1 + (2.4 - 0.6) 0.5), 0.9 (1 + 1.4 · 0.5)) = 1.53
    assert!(zeq(as_f64(open.k_zz), 1.53));
    // closed: min(0.9 (1 + 1.0 · 0.5), 0.9 (1 + 0.8 · 0.5)) = 1.26
    assert!(zeq(as_f64(closed.k_zz), 1.26));
    assert_ne!(open.k_zz, closed.k_zz);
    assert!(zeq(as_f64(open.k_yz), 0.6 * 1.53));
    assert_eq!(open.k_yy, closed.k_yy);
    assert!(zeq(as_f64(open.k_zy), 0.6 * as_f64(open.k_yy)));
    let elastic = TableB_1::from_factors(CrossSectionClass::Three, true, c, c, lam, lam, u, u).unwrap();
    // min(0.9 (1 + 0.6 · 1.2 · 0.5), 0.9 (1 + 0.6 · 0.5)) = 1.17
    assert!(zeq(as_f64(elastic.k_yy), 1.17));
    assert_eq!(elastic.k_yz, elastic.k_zz);
    assert!(zeq(as_f64(elastic.k_zy), 0.8 * 1.17));
}

#[test]
fn plate_classification_limits() {
    let web = limits_for(CrossSectionClassCase::WebCompression).unwrap();
    // c / t = 33 in S235: class 1 exactly at the limit
    assert_eq!(classify_plate(330, 10, 235, &web), CrossSectionClass::One);
    assert_eq!(classify_plate(331, 10, 235, &web), CrossSectionClass::Two);
    assert_eq!(classify_plate(420, 10, 235, &web), CrossSectionClass::Three);
    assert_eq!(classify_plate(421, 10, 235, &web), CrossSectionClass::Four);
    assert_eq!(classify_plate(-5, 10, 235, &web), CrossSectionClass::One);
    assert!(limits_for(CrossSectionClassCase::SingleParameter).is_none());
}

#[test]
fn tube_classification_scenario() {
    // CHS 48.3 x 5 in S235: d / t = 9.66 <= 50
    assert_eq!(classify_tube(483, 50, 235), CrossSectionClass::One);
    assert_eq!(classify_tube(500, 10, 235), CrossSectionClass::One);
    assert_eq!(classify_tube(510, 10, 235), CrossSectionClass::Two);
    assert_eq!(classify_tube(900, 10, 235), CrossSectionClass::Three);
    assert_eq!(classify_tube(901, 10, 235), CrossSectionClass::Four);
}

#[test]
fn thicker_plates_never_raise_the_class() {
    let web = limits_for(CrossSectionClassCase::WebBending).unwrap();
    let mut last = 5;
    for t in 1..60u32 {
        let class = classify_plate(1000, t, 355, &web).to_num();
        assert!(class <= last);
        last = class;
    }
    let mut last = 5;
    for t in 1..60u32 {
        let class = classify_tube(2000, t, 355).to_num();
        assert!(class <= last);
        last = class;
    }
}

#[test]
fn curve_and_limit_state_names() {
    assert_eq!(BuckleCurve::get("a0"), Some(BuckleCurve::A0));
    assert_eq!(BuckleCurve::get("D"), Some(BuckleCurve::D));
    assert_eq!(BuckleCurve::get("E"), None);
    assert_eq!(LTBCurve::get("b"), Some(LTBCurve::B));
    assert_eq!(LTBCurve::get("A0"), None);
    assert_eq!(LimitStateType::get("design"), Some(LimitStateType::D));
    assert_eq!(LimitStateType::get("Characteristic"), Some(LimitStateType::K));
    assert_eq!(LimitStateType::get("x"), None);
    assert_eq!(CrossSectionClass::Three.to_num(), 3);
    assert_eq!(CrossSectionClass::One.describe(), "Cross section class 1");
}

#[test]
fn slenderness_with_zero_critical_load_is_an_error() {
    assert_eq!(f_6_49_lambda(fx(1000.0), fx(355.0), 0), Err(DesignError::InvalidInput));
    assert_eq!(f_6_56_lambda_lt(fx(1000.0), fx(355.0), 0), Err(DesignError::InvalidInput));
    assert_eq!(f_6_49_lambda(u128::MAX, fx(355.0), fx(1.0)), Err(DesignError::InvalidInput));
}

#[test]
fn interaction_factor_k_zz_at_low_slenderness() {
    let c = fx(0.9);
    let lam = fx(0.2);
    let u = fx(0.5);
    let open = TableB_1::from_factors(CrossSectionClass::Two, true, c, c, lam, lam, u, u).unwrap();
    let closed = TableB_1::from_factors(CrossSectionClass::Two, false, c, c, lam, lam, u, u).unwrap();
    // open: 0.9 (1 + (0.4 - 0.6) 0.5) = 0.81; closed: 0.9 (1 + 0 · 0.5) = 0.9
    assert!(zeq(as_f64(open.k_zz), 0.81));
    assert!(zeq(as_f64(closed.k_zz), 0.9));
    assert!(open.k_zz < closed.k_zz);
}
