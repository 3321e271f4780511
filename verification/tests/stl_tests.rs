use optics_ring_generator::params::{RingParameters, RingType};
use optics_ring_generator::stl::{f32_bits, generate_stl, resolve_output_path, stl_triangle_count};

fn mm(v: f32) -> i64 {
    (v * 1000.0).round() as i64
}

#[test]
fn f32_encoding_matches_hardware_floats() {
    // coordinates: units of 2^-10 mm (s = 10)
    assert_eq!(f32_bits(0, 10), 0.0f32.to_bits());
    assert_eq!(f32_bits(1024, 10), 1.0f32.to_bits());
    assert_eq!(f32_bits(-1024, 10), (-1.0f32).to_bits());
    assert_eq!(f32_bits(12800, 10), 12.5f32.to_bits());
    assert_eq!(f32_bits(1, 10), (1.0f32 / 1024.0).to_bits());
    assert_eq!(f32_bits(3, 10), (3.0f32 / 1024.0).to_bits());
    assert_eq!(f32_bits(5_120_000, 10), 5000.0f32.to_bits());
    assert_eq!(f32_bits(20993, 10), (20993.0f32 / 1024.0).to_bits());
    assert_eq!(f32_bits(-777, 10), (-777.0f32 / 1024.0).to_bits());

    // normals: units of 2^-16 (s = 16)
    assert_eq!(f32_bits(65536, 16), 1.0f32.to_bits());
    assert_eq!(f32_bits(-65536, 16), (-1.0f32).to_bits());
    assert_eq!(f32_bits(32768, 16), 0.5f32.to_bits());
    assert_eq!(f32_bits(1, 16), (1.0f32 / 65536.0).to_bits());
    assert_eq!(f32_bits(-46341, 16), (-46341.0f32 / 65536.0).to_bits());
}

#[test]
fn stl_image_has_exact_size_and_count_field() {
    let p = RingParameters::new(RingType::Convex, mm(50.0), mm(25.0)).unwrap();
    let (m, bytes) = generate_stl(&p).unwrap();
    let n = m.triangle_count();
    assert_eq!(bytes.len(), 84 + 50 * n);
    assert_eq!(stl_triangle_count(&bytes), Some(n as u32));
}

#[test]
fn stl_header_is_zeroed_and_attributes_are_zero() {
    let p = RingParameters::new(RingType::ThreePoint, mm(40.0), mm(20.5)).unwrap();
    let (m, bytes) = generate_stl(&p).unwrap();
    for i in 0..80 {
        assert_eq!(bytes[i], 0u8);
    }
    // the trailing two attribute bytes of every record are zero
    for t in 0..m.triangle_count() {
        let rec = 84 + 50 * t;
        assert_eq!(bytes[rec + 48], 0u8);
        assert_eq!(bytes[rec + 49], 0u8);
    }
}

#[test]
fn stl_first_record_holds_first_triangle() {
    let p = RingParameters::new(RingType::Concave, mm(40.0), mm(20.5)).unwrap();
    let (m, bytes) = generate_stl(&p).unwrap();
    let t = &m.triangles[0];
    let read_f32 = |off: usize| -> f32 {
        f32::from_bits(u32::from_le_bytes([
            bytes[off],
            bytes[off + 1],
            bytes[off + 2],
            bytes[off + 3],
        ]))
    };
    // normal in Q16, vertices in units of 2^-10 mm; both conversions are
    // exact in f32, so the comparison below is exact
    assert_eq!(read_f32(84), t.nx as f32 / 65536.0);
    assert_eq!(read_f32(88), t.ny as f32 / 65536.0);
    assert_eq!(read_f32(92), t.nz as f32 / 65536.0);
    assert_eq!(read_f32(96), t.v0.x as f32 / 1024.0);
    assert_eq!(read_f32(100), t.v0.y as f32 / 1024.0);
    assert_eq!(read_f32(104), t.v0.z as f32 / 1024.0);
    assert_eq!(read_f32(128), t.v2.z as f32 / 1024.0);
}

#[test]
fn stl_count_too_short_bytes_reports_none() {
    let bytes: Vec<u8> = vec![0u8; 83];
    assert_eq!(stl_triangle_count(&bytes), None);
}

#[test]
fn output_path_joins_destination_and_filename() {
    let p = RingParameters::new(RingType::Convex, mm(50.0), mm(25.0)).unwrap();
    let path = resolve_output_path(&p, Some("/tmp/rings"));
    assert!(path.ends_with("CX-25.0.stl"));
    assert_eq!(path, "/tmp/rings/CX-25.0.stl");
    // no destination: the bare file name, relative to the current directory
    assert_eq!(resolve_output_path(&p, None), "CX-25.0.stl");

    // the file's count field agrees with the mesh it was made from
    let (m, bytes) = generate_stl(&p).unwrap();
    assert_eq!(stl_triangle_count(&bytes), Some(m.triangle_count() as u32));
}
