use optics_ring_generator::params::{
    RingParameters, RingType, ValidationError, MIN_WALL_THICKNESS_NM,
};

/// Millimetres (as the presentation layer reads them) to the library's
/// micrometre representation.
fn mm(v: f32) -> i64 {
    (v * 1000.0).round() as i64
}

#[test]
fn test_ring_parameters_validation() {
    // Valid parameters
    let params = RingParameters::new(RingType::Convex, mm(50.0), mm(25.0));
    assert!(params.is_ok());

    // Invalid - outer diameter too small
    let params = RingParameters::new(RingType::Convex, mm(25.0), mm(50.0));
    assert!(params.is_err());

    // Invalid - negative values
    let params = RingParameters::new(RingType::Convex, mm(-10.0), mm(5.0));
    assert!(params.is_err());
}

#[test]
fn test_filename_generation() {
    let params = RingParameters::new(RingType::Convex, mm(50.0), mm(25.0)).unwrap();
    assert_eq!(params.filename(), "CX-25.0.stl");

    let params = RingParameters::new(RingType::ThreePoint, mm(40.0), mm(20.5)).unwrap();
    assert_eq!(params.filename(), "3P-20.5.stl");
}

#[test]
fn wall_thickness_is_exact_half_difference() {
    let params = RingParameters::new(RingType::Convex, mm(50.0), mm(25.0)).unwrap();
    // (50.0 - 25.0) / 2 = 12.5 mm, exactly, in nanometres
    assert_eq!(params.wall_thickness_nm(), 12_500_000);

    let params = RingParameters::new(RingType::Concave, mm(27.0), mm(25.0)).unwrap();
    assert_eq!(params.wall_thickness_nm(), 1_000_000);
}

#[test]
fn construct_rejects_outer_not_greater_than_inner() {
    let r = RingParameters::new(RingType::Convex, mm(25.0), mm(50.0));
    assert_eq!(r.unwrap_err(), ValidationError::OuterNotGreaterThanInner);

    let r = RingParameters::new(RingType::Concave, mm(30.0), mm(30.0));
    assert_eq!(r.unwrap_err(), ValidationError::OuterNotGreaterThanInner);
}

#[test]
fn construct_rejects_non_positive_dimensions() {
    let r = RingParameters::new(RingType::Convex, mm(-10.0), mm(5.0));
    assert_eq!(r.unwrap_err(), ValidationError::NonPositiveDimension);

    let r = RingParameters::new(RingType::ThreePoint, mm(10.0), 0);
    assert_eq!(r.unwrap_err(), ValidationError::NonPositiveDimension);

    let r = RingParameters::new(RingType::Concave, 0, 0);
    assert_eq!(r.unwrap_err(), ValidationError::NonPositiveDimension);
}

#[test]
fn construct_rejects_thin_wall_at_construction_time() {
    // Policy: the 1 mm wall floor is enforced by the constructor itself,
    // not deferred to the print validation step.
    let r = RingParameters::new(RingType::Concave, mm(27.0), mm(26.0));
    assert_eq!(
        r.unwrap_err(),
        ValidationError::WallTooThin { actual_nm: 500_000, minimum_nm: MIN_WALL_THICKNESS_NM }
    );
}

#[test]
fn filename_is_deterministic_and_distinct_per_tenth() {
    let a = RingParameters::new(RingType::Convex, mm(50.0), mm(25.0)).unwrap();
    let b = RingParameters::new(RingType::Convex, mm(60.0), mm(25.0)).unwrap();
    // same variant and inner diameter: identical names, every time
    assert_eq!(a.filename(), a.filename());
    assert_eq!(a.filename(), b.filename());

    // inner diameters differing in the first decimal: distinct names
    let c = RingParameters::new(RingType::Convex, mm(50.0), mm(25.1)).unwrap();
    assert_ne!(a.filename(), c.filename());
    assert_eq!(c.filename(), "CX-25.1.stl");
}

#[test]
fn variant_codes_and_labels() {
    assert_eq!(RingType::Convex.code(), "CX");
    assert_eq!(RingType::Concave.code(), "CC");
    assert_eq!(RingType::ThreePoint.code(), "3P");
    assert_eq!(RingType::Convex.label(), "Convex");
    assert_eq!(RingType::Concave.label(), "Concave");
    assert_eq!(RingType::ThreePoint.label(), "Three-point");
}
