use optics_ring_generator::builder::generate_mesh;
use optics_ring_generator::mesh::{
    check_solid, is_watertight, make_triangle, signed_volume6, GenerationError, Mesh, Vertex3,
};
use optics_ring_generator::params::{RingParameters, RingType};
use optics_ring_generator::report::manufacturing_report;

fn mm(v: f32) -> i64 {
    (v * 1000.0).round() as i64
}

#[test]
fn convex_mesh_is_closed_solid() {
    let p = RingParameters::new(RingType::Convex, mm(50.0), mm(25.0)).unwrap();
    let m = generate_mesh(&p).unwrap();
    // 9 profile points, 60 segments, 2 triangles per quad
    assert_eq!(m.triangle_count(), 1080);
    assert!(is_watertight(&m.triangles));
    assert!(signed_volume6(&m) > 0);
}

#[test]
fn concave_mesh_is_closed_solid() {
    let p = RingParameters::new(RingType::Concave, mm(40.0), mm(20.5)).unwrap();
    let m = generate_mesh(&p).unwrap();
    assert_eq!(m.triangle_count(), 1080);
    assert!(is_watertight(&m.triangles));
    assert!(signed_volume6(&m) > 0);
}

#[test]
fn three_point_mesh_is_closed_solid() {
    let p = RingParameters::new(RingType::ThreePoint, mm(40.0), mm(20.5)).unwrap();
    let m = generate_mesh(&p).unwrap();
    // 4 profile points, 60 segments, 2 triangles per quad
    assert_eq!(m.triangle_count(), 480);
    assert!(is_watertight(&m.triangles));
    assert!(signed_volume6(&m) > 0);
}

#[test]
fn convex_generates_at_minimum_wall() {
    let p = RingParameters::new(RingType::Convex, mm(27.0), mm(25.0)).unwrap();
    assert_eq!(p.wall_thickness_nm(), 1_000_000);
    assert!(generate_mesh(&p).is_ok());
}

#[test]
fn concave_generates_at_minimum_wall() {
    let p = RingParameters::new(RingType::Concave, mm(27.0), mm(25.0)).unwrap();
    assert!(generate_mesh(&p).is_ok());
}

#[test]
fn three_point_generates_at_minimum_wall() {
    let p = RingParameters::new(RingType::ThreePoint, mm(27.0), mm(25.0)).unwrap();
    assert!(generate_mesh(&p).is_ok());
}

#[test]
fn convex_generates_large_ring() {
    let p = RingParameters::new(RingType::Convex, mm(200.0), mm(190.0)).unwrap();
    let m = generate_mesh(&p).unwrap();
    // past 100 mm the sweep doubles to 120 segments
    assert_eq!(m.triangle_count(), 2160);
}

#[test]
fn concave_generates_large_ring() {
    let p = RingParameters::new(RingType::Concave, mm(200.0), mm(190.0)).unwrap();
    let m = generate_mesh(&p).unwrap();
    assert_eq!(m.triangle_count(), 2160);
}

#[test]
fn three_point_generates_large_ring() {
    let p = RingParameters::new(RingType::ThreePoint, mm(200.0), mm(190.0)).unwrap();
    let m = generate_mesh(&p).unwrap();
    assert_eq!(m.triangle_count(), 960);
}

#[test]
fn report_summarizes_ring_and_mesh() {
    let p = RingParameters::new(RingType::ThreePoint, mm(40.0), mm(20.5)).unwrap();
    let m = generate_mesh(&p).unwrap();
    let r = manufacturing_report(&p, &m);
    assert_eq!(r.variant, RingType::ThreePoint);
    assert_eq!(r.wall_thickness_nm, 9_750_000);
    assert_eq!(r.triangle_count, 480);
    assert_eq!(r.contact_pads, 3);
    assert!(r.volume_mm3_millis > 0);
}

#[test]
fn report_counts_no_pads_for_arc_variants() {
    let p = RingParameters::new(RingType::Convex, mm(50.0), mm(25.0)).unwrap();
    let m = generate_mesh(&p).unwrap();
    let r = manufacturing_report(&p, &m);
    assert_eq!(r.contact_pads, 0);
    assert_eq!(r.wall_thickness_nm, 12_500_000);
}

#[test]
fn summary_text_renders_report() {
    let p = RingParameters::new(RingType::Convex, mm(50.0), mm(25.0)).unwrap();
    let m = generate_mesh(&p).unwrap();
    let r = manufacturing_report(&p, &m);
    let text = optics_ring_generator::report::summary_text(&r);
    assert!(text.starts_with("Ring type: Convex (CX)\nWall thickness: 12.500 mm\nTriangles: 1080\n"));
    assert!(text.contains("Approx volume: "));
    assert!(!text.contains("Contact pads"));

    let p3 = RingParameters::new(RingType::ThreePoint, mm(40.0), mm(20.5)).unwrap();
    let m3 = generate_mesh(&p3).unwrap();
    let r3 = manufacturing_report(&p3, &m3);
    let text3 = optics_ring_generator::report::summary_text(&r3);
    assert!(text3.contains("Contact pads: 3\n"));
    assert!(text3.starts_with("Ring type: Three-point (3P)\nWall thickness: 9.750 mm\n"));
}

#[test]
fn collinear_vertices_are_rejected() {
    let a = Vertex3 { x: 0, y: 0, z: 0 };
    let b = Vertex3 { x: 1000, y: 0, z: 0 };
    let c = Vertex3 { x: 2000, y: 0, z: 0 };
    assert_eq!(make_triangle(a, b, c), Err(GenerationError::DegenerateTriangle));
}

#[test]
fn open_surface_is_rejected() {
    let a = Vertex3 { x: 0, y: 0, z: 0 };
    let b = Vertex3 { x: 1000, y: 0, z: 0 };
    let c = Vertex3 { x: 0, y: 1000, z: 0 };
    let t = make_triangle(a, b, c).unwrap();
    let m = Mesh { triangles: vec![t] };
    assert_eq!(check_solid(&m), Err(GenerationError::NotWatertight));
}

#[test]
fn inverted_solid_is_rejected() {
    // flip every winding of a sound solid: still closed, but the
    // normals face inward and the signed volume turns negative
    let p = RingParameters::new(RingType::ThreePoint, mm(40.0), mm(20.5)).unwrap();
    let m = generate_mesh(&p).unwrap();
    let mut flipped = Vec::new();
    for t in &m.triangles {
        flipped.push(make_triangle(t.v0, t.v2, t.v1).unwrap());
    }
    let inverted = Mesh { triangles: flipped };
    assert_eq!(check_solid(&inverted), Err(GenerationError::NonPositiveVolume));
}
