use optics_ring_generator::params::{RingParameters, RingType};
use optics_ring_generator::validate::{
    validate_for_printing, validate_with_limits, PrintLimits, ValidationViolation,
    MAX_BED_DIAMETER_UM, MIN_BORE_DIAMETER_UM,
};

fn mm(v: f32) -> i64 {
    (v * 1000.0).round() as i64
}

#[test]
fn standard_limits_accept_a_common_ring() {
    let p = RingParameters::new(RingType::Convex, mm(50.0), mm(25.0)).unwrap();
    assert!(validate_for_printing(&p).is_ok());
}

#[test]
fn oversized_ring_exceeds_build_volume() {
    let p = RingParameters::new(RingType::Concave, mm(250.0), mm(200.0)).unwrap();
    let v = validate_for_printing(&p).unwrap_err();
    assert_eq!(
        v,
        vec![ValidationViolation::ExceedsBuildVolume {
            outer_um: 250_000,
            max_um: MAX_BED_DIAMETER_UM,
        }]
    );
}

#[test]
fn tiny_bore_is_flagged() {
    let p = RingParameters::new(RingType::Convex, mm(20.0), mm(0.8)).unwrap();
    let v = validate_for_printing(&p).unwrap_err();
    assert_eq!(
        v,
        vec![ValidationViolation::BoreTooSmall { inner_um: 800, min_um: MIN_BORE_DIAMETER_UM }]
    );
}

#[test]
fn alternate_limits_flag_thin_wall() {
    // a stricter printer profile: 3 mm minimum wall
    let limits = PrintLimits {
        min_wall_nm: 3_000_000,
        max_outer_um: 220_000,
        min_inner_um: 1_000,
    };
    let p = RingParameters::new(RingType::Convex, mm(27.0), mm(25.0)).unwrap();
    let v = validate_with_limits(&p, &limits).unwrap_err();
    assert_eq!(
        v,
        vec![ValidationViolation::WallBelowMinimum {
            actual_nm: 1_000_000,
            minimum_nm: 3_000_000,
        }]
    );
}

#[test]
fn violations_come_in_order() {
    // wall, then build volume, then bore
    let limits = PrintLimits {
        min_wall_nm: 200_000_000,
        max_outer_um: 100_000,
        min_inner_um: 150_000,
    };
    let p = RingParameters::new(RingType::ThreePoint, mm(250.0), mm(100.0)).unwrap();
    let v = validate_with_limits(&p, &limits).unwrap_err();
    assert_eq!(v.len(), 3);
    assert!(matches!(v[0], ValidationViolation::WallBelowMinimum { .. }));
    assert!(matches!(v[1], ValidationViolation::ExceedsBuildVolume { .. }));
    assert!(matches!(v[2], ValidationViolation::BoreTooSmall { .. }));
}
