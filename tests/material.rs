use emsdesign::err::DesignError;
use emsdesign::material::{Class, Steel};
use emsdesign::LimitStateType;

const TOLERANCE: f64 = 0.0001;

fn as_f64(v: u128) -> f64 {
    v as f64 / 1_000_000.0
}

fn zeq(a: f64, b: f64) -> bool {
    (a - b).abs() < TOLERANCE
}

#[test]
fn correct_gamma() {
    let steel = Steel::default();
    assert!(zeq(as_f64(steel.gamma_m0(&LimitStateType::K)), 1.00));
    assert!(zeq(as_f64(steel.gamma_m0(&LimitStateType::D)), 1.05));
}

#[test]
fn correct_yield_strength() {
    assert!(zeq(as_f64(Steel::from(&Class::S235).f_y(&LimitStateType::K)), 235.0));
    assert!(zeq(as_f64(Steel::from(&Class::S275).f_y(&LimitStateType::K)), 275.0));
    assert!(zeq(as_f64(Steel::from(&Class::S355).f_y(&LimitStateType::K)), 355.0));
    assert!(zeq(as_f64(Steel::from(&Class::S450).f_y(&LimitStateType::K)), 440.0));
}

#[test]
fn epsilon_is_computed_correctly() {
    assert!(zeq(as_f64(Steel::from(&Class::S235).epsilon()), 1.0));
    assert!(zeq(as_f64(Steel::from(&Class::S275).epsilon()), 0.924_416));
    assert!(zeq(as_f64(Steel::from(&Class::S355).epsilon()), 0.813_616));
    assert!(zeq(as_f64(Steel::from(&Class::S450).epsilon()), 0.730_815));
}

#[test]
fn design_yield_strength_of_s355() {
    let steel = Steel::from(&Class::S355);
    let fyd = as_f64(steel.f_y(&LimitStateType::D));
    assert!((fyd - 338.10).abs() < 0.005);
    assert_eq!(steel.f_y(&LimitStateType::D), 338_095_238);
    assert_eq!(steel.gamma_m1(&LimitStateType::K), 1_000_000);
    assert_eq!(steel.gamma_m1(&LimitStateType::D), 1_050_000);
}

#[test]
fn ultimate_strength_and_moduli() {
    let steel = Steel::from(&Class::S275);
    assert!(zeq(as_f64(steel.f_u(&LimitStateType::K)), 430.0));
    assert!(zeq(as_f64(steel.f_u(&LimitStateType::D)), 430.0 / 1.05));
    assert!(zeq(as_f64(steel.young_modulus()), 210_000.0));
    assert!(zeq(as_f64(steel.shear_modulus()), 210_000.0 / 2.6));
    assert!(zeq(as_f64(steel.rho()), 7850.0));
}

#[test]
fn invalid_steel_is_rejected() {
    assert!(matches!(Steel::new(0, 490, 210_000, 300_000, 7850, 1_050_000, 1_050_000), Err(DesignError::InvalidInput)));
    assert!(matches!(Steel::new(355, 490, 0, 300_000, 7850, 1_050_000, 1_050_000), Err(DesignError::InvalidInput)));
    assert!(matches!(Steel::new(355, 490, 210_000, 300_000, 7850, 0, 1_050_000), Err(DesignError::InvalidInput)));
    assert!(matches!(Steel::new(355, 490, 210_000, 1_500_000, 7850, 1_000_000, 1_050_000), Err(DesignError::InvalidInput)));
    let s = Steel::new(355, 490, 210_000, 300_000, 7850, 1_000_000, 1_100_000).expect("valid steel");
    assert_eq!(s.gamma_m1(&LimitStateType::D), 1_100_000);
}

#[test]
fn grade_names() {
    assert_eq!(Class::get("S355"), Some(Class::S355));
    assert_eq!(Class::get("S420"), None);
    assert_eq!(Class::variants(), vec!["S235", "S275", "S355", "S450"]);
}
