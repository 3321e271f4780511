//! Profile construction and the circular sweep.
//!
//! Each variant's cross-section is a closed polygon in the (radius, z)
//! half-plane, traversed so that the sweep gives outward-facing winding:
//! up the bore side, across the top, down the outer wall, back along the
//! bottom.  Revolving it through every angular segment and splitting each
//! grid quad into two triangles yields a closed surface; the three-point
//! variant narrows the bore radius over three pad-width runs of segments,
//! which raises its pads while keeping the swept grid - and so the
//! closed-surface property - intact.
//!
//! Chosen constants, all derived from the wall `w` and documented here
//! because they shape the triangle count and the printed contact:
//! 60 angular segments (120 past 100 mm outer diameter); bore-side arc of
//! 6 chords with lip depth `min(w/3, bore_radius/2)`; ring height
//! `6 * (w/3)` for the arc variants and `w` for three-point; three pads
//! every third of a turn, each 1/20 of a turn wide, protruding
//! `min(w/2, 0.5 mm, bore_radius/2)` into the bore.

use vstd::prelude::*;
use vstd::arithmetic::div_mod::{
    lemma_div_is_ordered,
    lemma_div_by_multiple,
    lemma_hoist_over_denominator,
    lemma_fundamental_div_mod_converse,
};
use crate::params::{RingParameters, RingType};
use crate::mesh::{
    Mesh,
    Triangle,
    Vertex3,
    GenerationError,
    make_triangle,
    check_solid,
    vertex_in_range,
    triangle_wf,
    watertight,
    spec_vol6,
    spec_cross_x,
    spec_cross_y,
    spec_cross_z,
    spec_cross_sq,
    spec_isqrt,
    spec_normal_comp,
    MAX_TRIANGLES,
    MIN_CROSS_SQ,
};
use crate::trig::{sin_q16, cos_q16, spec_sin_q16, lemma_qsin_bounds};

verus! {

/// Angular resolution of the sweep: 60 segments, doubled past 100 mm
/// outer diameter to keep the chord error bounded.
pub open spec fn spec_segments(outer_um: int) -> int {
    if outer_um > 100_000 {
        120
    } else {
        60
    }
}

/// Points in the swept cross-section polygon.
pub open spec fn spec_profile_len(rt: RingType) -> int {
    if rt == RingType::ThreePoint {
        4
    } else {
        9
    }
}

/// Triangles in a generated mesh: two per quad of the swept grid.
pub open spec fn spec_triangle_count(rt: RingType, outer_um: int) -> int {
    2 * spec_profile_len(rt) * spec_segments(outer_um)
}

/// Diameter in micrometres to bore/outer *radius* in mesh units of
/// 2^-10 mm, rounded to nearest: `radius = d / 2 [mm -> units * 1024]`.
pub open spec fn spec_radius_units(d_um: int) -> int {
    (d_um * 64 + 62) / 125
}

fn radius_units(d_um: i64) -> (r: u64)
    requires
        0 < d_um <= crate::params::MAX_DIAMETER_UM,
    ensures
        r == spec_radius_units(d_um as int),
        1 <= r <= 5_120_000,
{
    let n: u64 = (d_um as u64) * 64 + 62;
    proof {
        lemma_div_is_ordered(126, n as int, 125);
        lemma_div_is_ordered(n as int, 640_000_062, 125);
    }
    n / 125
}

/// `v * s / 65536` for a Q16 factor `s` in `[0, 65536]`; never exceeds `v`.
fn scale_q16(v: u64, s: u64) -> (r: u64)
    requires
        v <= 0x80_0000,
        s <= 65536,
    ensures
        r == (v as int * s as int) / 65536,
        r <= v,
{
    proof {
        assert(0 <= (v as int) * (s as int) <= (v as int) * 65536) by (nonlinear_arith)
            requires
                0 <= v as int,
                0 <= s as int <= 65536,
        ;
        lemma_div_is_ordered((v as int) * (s as int), (v as int) * 65536, 65536);
        lemma_div_by_multiple(v as int, 65536);
        assert((v as int) * 65536 == 65536 * (v as int));
    }
    (v * s) / 65536
}

/// A radius scaled by a Q16 cosine or sine, rounded toward zero.
pub open spec fn spec_rot_q16(rv: int, c: int) -> int {
    if c >= 0 {
        rv * c / 65536
    } else {
        -(rv * -c / 65536)
    }
}

/// Rotates the profile point `(r, z)` to angle step `kidx` of the circle
/// table.
fn sweep_vertex(r: u64, z: u64, kidx: u64) -> (v: Vertex3)
    requires
        r <= 5_200_000,
        z <= 10_400_000,
        kidx < 120,
    ensures
        vertex_in_range(v),
        v.z == z,
        v.x == spec_rot_q16(r as int, crate::trig::spec_cos_q16(kidx as int)),
        v.y == spec_rot_q16(r as int, spec_sin_q16(kidx as int)),
        -(r as int) <= v.x <= r as int,
        -(r as int) <= v.y <= r as int,
{
    let c = cos_q16(kidx);
    let s = sin_q16(kidx);
    let ca: u64 = if c >= 0 {
        c as u64
    } else {
        (-c) as u64
    };
    let sa: u64 = if s >= 0 {
        s as u64
    } else {
        (-s) as u64
    };
    let xm = scale_q16(r, ca);
    let ym = scale_q16(r, sa);
    let x: i64 = if c >= 0 {
        xm as i64
    } else {
        -(xm as i64)
    };
    let y: i64 = if s >= 0 {
        ym as i64
    } else {
        -(ym as i64)
    };
    Vertex3 { x, y, z: z as i64 }
}

fn min_u64(a: u64, b: u64) -> (r: u64)
    ensures
        r == if a <= b {
            a
        } else {
            b
        },
{
    if a <= b {
        a
    } else {
        b
    }
}

/// Whether angle step `k` of a sweep with `segs` segments lies in a pad
/// run: the three-point variant raises its pads over the first
/// twentieth of each third of the turn.
pub open spec fn spec_pad_at(rt: RingType, k: int, segs: int) -> bool {
    rt == RingType::ThreePoint && k % (segs / 3) < segs / 20
}

fn pad_at(rt: RingType, k: u64, segs: u64) -> (r: bool)
    requires
        segs == 60 || segs == 120,
        k < segs,
    ensures
        r == spec_pad_at(rt, k as int, segs as int),
{
    if rt == RingType::ThreePoint {
        let period = segs / 3;
        let width = segs / 20;
        (k % period) < width
    } else {
        false
    }
}

pub open spec fn spec_min(a: int, b: int) -> int {
    if a <= b {
        a
    } else {
        b
    }
}

/// Depth of the bore-side arc of the two arc variants.
pub open spec fn spec_lip_depth(gw: int, r_in: int) -> int {
    spec_min(gw / 3, r_in / 2)
}

/// Radial protrusion of a three-point contact pad.
pub open spec fn spec_pad_protrusion(gw: int, r_in: int) -> int {
    spec_min(spec_min(gw / 2, 512), r_in / 2)
}

/// Radius of profile point `i`: the bore side (arced, or narrowed on a
/// pad run) for the low indices, the outer wall for the rest.
pub open spec fn spec_profile_r(
    rt: RingType,
    r_in: int,
    r_out: int,
    gw: int,
    pad: bool,
    i: int,
) -> int {
    if rt == RingType::ThreePoint {
        if i == 0 || i == 1 {
            if pad {
                r_in - spec_pad_protrusion(gw, r_in)
            } else {
                r_in
            }
        } else {
            r_out
        }
    } else {
        if i <= 6 {
            let d = spec_lip_depth(gw, r_in) * spec_sin_q16(10 * i) / 65536;
            if rt == RingType::Convex {
                r_in - d
            } else {
                r_in + d
            }
        } else {
            r_out
        }
    }
}

/// Height of profile point `i`.
pub open spec fn spec_profile_z(rt: RingType, gw: int, i: int) -> int {
    if rt == RingType::ThreePoint {
        if i == 1 || i == 2 {
            gw
        } else {
            0
        }
    } else {
        if i <= 6 {
            i * (gw / 3)
        } else if i == 7 {
            6 * (gw / 3)
        } else {
            0
        }
    }
}

/// Point `i` of the cross-section polygon, as `(radius, z)` in mesh
/// units.  `gw` is the geometric wall `r_out - r_in`; `pad` selects the
/// narrowed bore radius on pad segments of the three-point variant.
fn profile_point(rt: RingType, r_in: u64, r_out: u64, gw: u64, pad: bool, i: usize) -> (p: (
    u64,
    u64,
))
    requires
        1 <= r_in,
        r_in + gw == r_out,
        r_out <= 5_120_000,
        1024 <= gw,
        i < spec_profile_len(rt),
    ensures
        p.0 == spec_profile_r(rt, r_in as int, r_out as int, gw as int, pad, i as int),
        p.1 == spec_profile_z(rt, gw as int, i as int),
        p.0 <= r_out,
        p.1 <= 2 * gw,
{
    if rt == RingType::ThreePoint {
        let prot = min_u64(min_u64(gw / 2, 512), r_in / 2);
        let rk = if pad {
            r_in - prot
        } else {
            r_in
        };
        let h = gw;
        match i {
            0 => (rk, 0),
            1 => (rk, h),
            2 => (r_out, h),
            _ => (r_out, 0),
        }
    } else {
        let dl = min_u64(gw / 3, r_in / 2);
        let hz = gw / 3;
        proof {
            assert(6 * hz <= 2 * gw) by (nonlinear_arith)
                requires
                    hz == gw as int / 3,
                    0 <= gw as int,
            ;
        }
        if i <= 6 {
            let s = sin_q16(10 * (i as u64));
            proof {
                lemma_qsin_bounds(10 * i as int);
                lemma_qsin_bounds(60 - 10 * i as int);
                assert(spec_sin_q16(10 * i as int) >= 0);
            }
            let dsub = scale_q16(dl, s as u64);
            let r = if rt == RingType::Convex {
                r_in - dsub
            } else {
                r_in + dsub
            };
            proof {
                assert((i as u64 as int) * (hz as int) <= 6 * hz as int) by (nonlinear_arith)
                    requires
                        0 <= i as int <= 6,
                        0 <= hz as int,
                ;
            }
            let z = (i as u64) * hz;
            (r, z)
        } else if i == 7 {
            (r_out, 6 * hz)
        } else {
            (r_out, 0)
        }
    }
}

/// A vertex inside the ring's bounding cylinder: radius `rad`, height
/// `h`, base plane `z = 0`.
pub open spec fn vertex_within(v: Vertex3, rad: int, h: int) -> bool {
    &&& -rad <= v.x <= rad
    &&& -rad <= v.y <= rad
    &&& 0 <= v.z <= h
}

pub open spec fn triangle_within(t: Triangle, rad: int, h: int) -> bool {
    &&& vertex_within(t.v0, rad, h)
    &&& vertex_within(t.v1, rad, h)
    &&& vertex_within(t.v2, rad, h)
}

/// The cylinder every generated vertex of a ring must stay in: the
/// outer radius, and twice the geometric wall in height.
pub open spec fn spec_envelope_radius(p: RingParameters) -> int {
    spec_radius_units(p.spec_outer_um() as int)
}

pub open spec fn spec_envelope_height(p: RingParameters) -> int {
    2 * (spec_radius_units(p.spec_outer_um() as int) - spec_radius_units(
        p.spec_inner_um() as int,
    ))
}

/// The circle-table index of sweep step `k` (the table has 120 steps).
pub open spec fn spec_kidx(k: int, segs: int) -> int {
    if segs == 120 {
        k
    } else {
        2 * k
    }
}

/// The vertex of the swept grid at profile index `i` and angle step
/// `k`: the profile point for that column, rotated to that angle.
pub open spec fn spec_grid_vertex(p: RingParameters, i: int, k: int) -> Vertex3 {
    let rt = p.spec_ring_type();
    let outer = p.spec_outer_um() as int;
    let r_in = spec_radius_units(p.spec_inner_um() as int);
    let r_out = spec_radius_units(outer);
    let gw = r_out - r_in;
    let segs = spec_segments(outer);
    let pad = spec_pad_at(rt, k, segs);
    let r = spec_profile_r(rt, r_in, r_out, gw, pad, i);
    let z = spec_profile_z(rt, gw, i);
    let kidx = spec_kidx(k, segs);
    Vertex3 {
        x: spec_rot_q16(r, crate::trig::spec_cos_q16(kidx)) as i64,
        y: spec_rot_q16(r, spec_sin_q16(kidx)) as i64,
        z: z as i64,
    }
}

/// The three corners of triangle `j` of a generated mesh.  Triangles
/// come two per grid quad, quads profile-major within each angle step:
/// quad `j / 2` joins profile edge `(j / 2) % plen` to the next angle
/// step, and the second triangle of a quad covers its far corner.
pub open spec fn spec_grid_triangle(p: RingParameters, j: int) -> (Vertex3, Vertex3, Vertex3) {
    let plen = spec_profile_len(p.spec_ring_type());
    let segs = spec_segments(p.spec_outer_um() as int);
    let q = j / 2;
    let i = q % plen;
    let k = q / plen;
    let i2 = if i + 1 == plen {
        0
    } else {
        i + 1
    };
    let k2 = if k + 1 == segs {
        0
    } else {
        k + 1
    };
    let a = spec_grid_vertex(p, i, k);
    let b = spec_grid_vertex(p, i2, k);
    let c = spec_grid_vertex(p, i2, k2);
    let d = spec_grid_vertex(p, i, k2);
    if j % 2 == 1 {
        (a, c, d)
    } else {
        (a, b, c)
    }
}

/// Triangle `t` stands at position `j` of the grid layout.
pub open spec fn matches_grid(p: RingParameters, t: Triangle, j: int) -> bool {
    (t.v0, t.v1, t.v2) == spec_grid_triangle(p, j)
}

/// Grid triangle `j` falls below the minimum area, so the builder must
/// reject the ring rather than emit it.
pub open spec fn spec_grid_degenerate(p: RingParameters, j: int) -> bool {
    let t = spec_grid_triangle(p, j);
    spec_cross_sq(t.0, t.1, t.2) < MIN_CROSS_SQ
}

/// Grid triangle `j` completed with its derived normal fields.
pub open spec fn spec_grid_full_triangle(p: RingParameters, j: int) -> Triangle {
    let t = spec_grid_triangle(p, j);
    let norm = spec_isqrt(spec_cross_sq(t.0, t.1, t.2) as nat) as int;
    Triangle {
        v0: t.0,
        v1: t.1,
        v2: t.2,
        nx: spec_normal_comp(spec_cross_x(t.0, t.1, t.2), norm) as i64,
        ny: spec_normal_comp(spec_cross_y(t.0, t.1, t.2), norm) as i64,
        nz: spec_normal_comp(spec_cross_z(t.0, t.1, t.2), norm) as i64,
    }
}

/// The whole mesh a ring determines: one full triangle per grid
/// position.  The builder emits exactly this sequence or reports which
/// defect in it stopped the build.
pub open spec fn spec_grid_mesh(p: RingParameters) -> Seq<Triangle> {
    Seq::new(
        spec_triangle_count(p.spec_ring_type(), p.spec_outer_um() as int) as nat,
        |j: int| spec_grid_full_triangle(p, j),
    )
}

/// A sequence of well-formed triangles standing pointwise at their grid
/// positions, of the full count, is the grid mesh itself: the normals
/// are a function of the vertices for well-formed triangles.
proof fn lemma_grid_mesh_eq(p: RingParameters, s: Seq<Triangle>)
    requires
        s.len() == spec_triangle_count(p.spec_ring_type(), p.spec_outer_um() as int),
        forall|j: int| 0 <= j < s.len() ==> triangle_wf(#[trigger] s[j]),
        forall|j: int| 0 <= j < s.len() ==> matches_grid(p, #[trigger] s[j], j),
    ensures
        s == spec_grid_mesh(p),
{
    let gm = spec_grid_mesh(p);
    assert forall|j: int| 0 <= j < s.len() implies s[j] == gm[j] by {
        let t = s[j];
        let abc = spec_grid_triangle(p, j);
        assert(matches_grid(p, t, j));
        assert(t.v0 == abc.0 && t.v1 == abc.1 && t.v2 == abc.2);
        assert(triangle_wf(t));
        assert(gm[j] == spec_grid_full_triangle(p, j));
    }
    assert(s =~= gm);
}

/// Builds the two triangles of grid quad `(i, k)`.  On success they
/// are well formed, inside the ring's bounding cylinder, and stand
/// exactly at grid positions `2 * (k * plen + i)` and the one after;
/// failure names a grid triangle below the minimum area.
#[verifier::rlimit(100)]
fn build_quad(
    p: &RingParameters,
    rt: RingType,
    r_in: u64,
    r_out: u64,
    gw: u64,
    pad_a: bool,
    pad_b: bool,
    kidx: u64,
    kidx2: u64,
    k: u64,
    k2: u64,
    i: usize,
    plen: usize,
    segs: u64,
) -> (r: Result<(Triangle, Triangle), GenerationError>)
    requires
        rt == p.spec_ring_type(),
        segs == spec_segments(p.spec_outer_um() as int),
        segs == 60 || segs == 120,
        plen == spec_profile_len(rt),
        r_out == spec_radius_units(p.spec_outer_um() as int),
        r_in == spec_radius_units(p.spec_inner_um() as int),
        1 <= r_in,
        r_in + gw == r_out,
        r_out <= 5_120_000,
        1024 <= gw,
        k < segs,
        i < plen,
        k2 as int == (if k as int + 1 == segs as int {
            0int
        } else {
            k as int + 1
        }),
        pad_a == spec_pad_at(rt, k as int, segs as int),
        pad_b == spec_pad_at(rt, k2 as int, segs as int),
        kidx == spec_kidx(k as int, segs as int),
        kidx2 == spec_kidx(k2 as int, segs as int),
        kidx < 120,
        kidx2 < 120,
    ensures
        match r {
            Ok(pair) => {
                &&& triangle_wf(pair.0)
                &&& triangle_wf(pair.1)
                &&& triangle_within(pair.0, r_out as int, 2 * gw as int)
                &&& triangle_within(pair.1, r_out as int, 2 * gw as int)
                &&& matches_grid(*p, pair.0, 2 * ((k as int) * (plen as int) + (i as int)))
                &&& matches_grid(*p, pair.1, 2 * ((k as int) * (plen as int) + (i as int)) + 1)
            },
            Err(e) => {
                &&& e == GenerationError::DegenerateTriangle
                &&& exists|j: int|
                    0 <= j < spec_triangle_count(p.spec_ring_type(), p.spec_outer_um() as int)
                        && spec_grid_degenerate(*p, j)
            },
        },
{
    let i2 = if i + 1 == plen {
        0
    } else {
        i + 1
    };
    let (ra, za) = profile_point(rt, r_in, r_out, gw, pad_a, i);
    let (rb, zb) = profile_point(rt, r_in, r_out, gw, pad_a, i2);
    let (rc, zc) = profile_point(rt, r_in, r_out, gw, pad_b, i2);
    let (rd, zd) = profile_point(rt, r_in, r_out, gw, pad_b, i);
    let va = sweep_vertex(ra, za, kidx);
    let vb = sweep_vertex(rb, zb, kidx);
    let vc = sweep_vertex(rc, zc, kidx2);
    let vd = sweep_vertex(rd, zd, kidx2);
    let ghost q = (k as int) * (plen as int) + (i as int);
    proof {
        lemma_fundamental_div_mod_converse(q, plen as int, k as int, i as int);
        lemma_fundamental_div_mod_converse(2 * q, 2, q, 0);
        lemma_fundamental_div_mod_converse(2 * q + 1, 2, q, 1);
        assert(2 * q + 1 < 2 * (plen as int) * (segs as int)) by (nonlinear_arith)
            requires
                q == (k as int) * (plen as int) + (i as int),
                0 <= k as int <= segs as int - 1,
                0 <= i as int <= plen as int - 1,
        ;
        assert(va == spec_grid_vertex(*p, i as int, k as int));
        assert(vb == spec_grid_vertex(*p, i2 as int, k as int));
        assert(vc == spec_grid_vertex(*p, i2 as int, k2 as int));
        assert(vd == spec_grid_vertex(*p, i as int, k2 as int));
    }
    let t1 = match make_triangle(va, vb, vc) {
        Ok(t) => t,
        Err(e) => {
            proof {
                assert(spec_grid_degenerate(*p, 2 * q));
            }
            return Err(e);
        },
    };
    let t2 = match make_triangle(va, vc, vd) {
        Ok(t) => t,
        Err(e) => {
            proof {
                assert(spec_grid_degenerate(*p, 2 * q + 1));
            }
            return Err(e);
        },
    };
    proof {
        assert(matches_grid(*p, t1, 2 * q));
        assert(matches_grid(*p, t2, 2 * q + 1));
    }
    Ok((t1, t2))
}

/// Revolves the cross-section into a closed triangulated solid.  Every
/// triangle of a returned mesh is well formed (in range, above the
/// minimum area, normal derived from its winding), lies within the
/// ring's bounding cylinder, and the count is exactly two triangles per
/// grid quad.
#[verifier::rlimit(100)]
pub fn build_mesh(p: &RingParameters) -> (res: Result<Mesh, GenerationError>)
    ensures
        match res {
            Ok(m) => {
                &&& m.wf()
                &&& m.triangles@ == spec_grid_mesh(*p)
                &&& m.triangles@.len() == spec_triangle_count(
                    p.spec_ring_type(),
                    p.spec_outer_um() as int,
                )
                &&& forall|i: int|
                    0 <= i < m.triangles@.len() ==> triangle_within(
                        #[trigger] m.triangles@[i],
                        spec_envelope_radius(*p),
                        spec_envelope_height(*p),
                    )
                &&& forall|j: int|
                    0 <= j < m.triangles@.len() ==> matches_grid(*p, #[trigger] m.triangles@[j], j)
            },
            Err(e) => {
                &&& e == GenerationError::DegenerateTriangle
                &&& exists|j: int|
                    0 <= j < spec_triangle_count(p.spec_ring_type(), p.spec_outer_um() as int)
                        && spec_grid_degenerate(*p, j)
            },
        },
{
    let rt = p.ring_type();
    let outer = p.outer_um();
    let inner = p.inner_um();
    let segs: u64 = if outer > 100_000 {
        120
    } else {
        60
    };
    let r_out = radius_units(outer);
    let r_in = radius_units(inner);
    proof {
        // the 1 mm wall floor leaves at least 1024 units between radii
        assert(outer - inner >= 2000);
        lemma_hoist_over_denominator(inner as int * 64 + 62, 1024, 125);
        lemma_div_is_ordered(inner as int * 64 + 62 + 1024 * 125, outer as int * 64 + 62, 125);
    }
    let gw = r_out - r_in;
    let plen: usize = if rt == RingType::ThreePoint {
        4
    } else {
        9
    };
    let mut tris: Vec<Triangle> = Vec::new();
    let mut k: u64 = 0;
    while k < segs
        invariant
            segs == spec_segments(outer as int),
            segs == 60 || segs == 120,
            plen == spec_profile_len(rt),
            1 <= r_in,
            r_in + gw == r_out,
            r_out <= 5_120_000,
            1024 <= gw,
            k <= segs,
            rt == p.spec_ring_type(),
            outer == p.spec_outer_um(),
            inner == p.spec_inner_um(),
            r_out == spec_radius_units(outer as int),
            r_in == spec_radius_units(inner as int),
            tris@.len() == 2 * (k as int) * (plen as int),
            forall|j: int| 0 <= j < tris@.len() ==> triangle_wf(#[trigger] tris@[j]),
            forall|j: int|
                0 <= j < tris@.len() ==> triangle_within(
                    #[trigger] tris@[j],
                    r_out as int,
                    2 * gw as int,
                ),
            forall|j: int| 0 <= j < tris@.len() ==> matches_grid(*p, #[trigger] tris@[j], j),
        decreases segs - k,
    {
        let k2 = if k + 1 == segs {
            0
        } else {
            k + 1
        };
        let pad_a = pad_at(rt, k, segs);
        let pad_b = pad_at(rt, k2, segs);
        let kidx = if segs == 120 {
            k
        } else {
            2 * k
        };
        let kidx2 = if segs == 120 {
            k2
        } else {
            2 * k2
        };
        let mut i: usize = 0;
        while i < plen
            invariant
                segs == spec_segments(outer as int),
                segs == 60 || segs == 120,
                plen == spec_profile_len(rt),
                1 <= r_in,
                r_in + gw == r_out,
                r_out <= 5_120_000,
                1024 <= gw,
                k < segs,
                kidx < 120,
                kidx2 < 120,
                rt == p.spec_ring_type(),
                outer == p.spec_outer_um(),
                inner == p.spec_inner_um(),
                r_out == spec_radius_units(outer as int),
                r_in == spec_radius_units(inner as int),
                pad_a == spec_pad_at(rt, k as int, segs as int),
                pad_b == spec_pad_at(rt, k2 as int, segs as int),
                kidx == spec_kidx(k as int, segs as int),
                kidx2 == spec_kidx(k2 as int, segs as int),
                k2 as int == (if k as int + 1 == segs as int {
                    0int
                } else {
                    k as int + 1
                }),
                i <= plen,
                tris@.len() == 2 * (k as int) * (plen as int) + 2 * (i as int),
                forall|j: int| 0 <= j < tris@.len() ==> triangle_wf(#[trigger] tris@[j]),
                forall|j: int|
                    0 <= j < tris@.len() ==> triangle_within(
                        #[trigger] tris@[j],
                        r_out as int,
                        2 * gw as int,
                    ),
                forall|j: int| 0 <= j < tris@.len() ==> matches_grid(*p, #[trigger] tris@[j], j),
            decreases plen - i,
        {
            let pair = match build_quad(
                p, rt, r_in, r_out, gw, pad_a, pad_b, kidx, kidx2, k, k2, i, plen, segs,
            ) {
                Ok(pair) => pair,
                Err(e) => {
                    return Err(e);
                },
            };
            tris.push(pair.0);
            tris.push(pair.1);
            i = i + 1;
        }
        proof {
            assert(2 * (k as int) * (plen as int) + 2 * (plen as int) == 2 * (k as int + 1) * (
            plen as int)) by (nonlinear_arith);
        }
        k = k + 1;
    }
    proof {
        assert(2 * (segs as int) * (plen as int) == 2 * (plen as int) * (segs as int))
            by (nonlinear_arith);
        assert(2 * (plen as int) * (segs as int) <= 2160) by (nonlinear_arith)
            requires
                0 <= plen as int <= 9,
                0 <= segs as int <= 120,
        ;
        assert(tris@.len() <= MAX_TRIANGLES);
        lemma_grid_mesh_eq(*p, tris@);
    }
    Ok(Mesh { triangles: tris })
}

/// Builds the mesh and holds it to the solid-surface checks: the result
/// is watertight and encloses a positive volume, every triangle clears
/// the minimum area, stays within the ring's bounding cylinder and
/// stands exactly where the grid layout (`spec_grid_triangle`) puts it,
/// and the triangle count is the documented function of variant and
/// outer diameter.
pub fn generate_mesh(p: &RingParameters) -> (res: Result<Mesh, GenerationError>)
    ensures
        match res {
            Ok(m) => {
                &&& m.wf()
                &&& watertight(m.triangles@)
                &&& spec_vol6(m.triangles@) > 0
                &&& m.triangles@.len() == spec_triangle_count(
                    p.spec_ring_type(),
                    p.spec_outer_um() as int,
                )
                &&& forall|i: int|
                    0 <= i < m.triangles@.len() ==> triangle_within(
                        #[trigger] m.triangles@[i],
                        spec_envelope_radius(*p),
                        spec_envelope_height(*p),
                    )
                &&& m.triangles@ == spec_grid_mesh(*p)
                &&& forall|j: int|
                    0 <= j < m.triangles@.len() ==> matches_grid(*p, #[trigger] m.triangles@[j], j)
            },
            Err(e) => match e {
                GenerationError::DegenerateTriangle => exists|j: int|
                    0 <= j < spec_triangle_count(p.spec_ring_type(), p.spec_outer_um() as int)
                        && spec_grid_degenerate(*p, j),
                GenerationError::NotWatertight => !watertight(spec_grid_mesh(*p)),
                GenerationError::NonPositiveVolume => watertight(spec_grid_mesh(*p)) && spec_vol6(
                    spec_grid_mesh(*p),
                ) <= 0,
            },
        },
{
    let m = match build_mesh(p) {
        Ok(m) => m,
        Err(e) => {
            return Err(e);
        },
    };
    match check_solid(&m) {
        Ok(()) => Ok(m),
        Err(e) => Err(e),
    }
}

} // verus!
