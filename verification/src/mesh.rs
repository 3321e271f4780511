//! Triangle meshes over exact integer coordinates.
//!
//! Coordinates are in units of 2^-10 mm and normals in units of 2^-16, so
//! both fit the 24-bit significand of the file format's 32-bit floats with
//! nothing lost.  A triangle carries its outward normal, derived from the
//! winding as the scaled direction of `(v1 - v0) x (v2 - v0)`.

use vstd::prelude::*;
use vstd::arithmetic::div_mod::{lemma_div_is_ordered, lemma_div_by_multiple};

verus! {

/// Mesh coordinates stay strictly below 2^24 units in magnitude, the
/// largest integer range the 32-bit float format represents exactly.
pub const COORD_LIMIT: i64 = 16_777_216;

/// Reject triangles whose cross product has squared length below this
/// (the squared cross-product length is four times the squared area, so
/// this is an area of about 1e-4 mm^2).
pub const MIN_CROSS_SQ: u128 = 40_000;

/// Hard cap on triangles per mesh; far above what the sweep resolutions
/// can produce, and small enough that volume sums cannot overflow.
pub const MAX_TRIANGLES: usize = 100_000;

/// Why mesh generation was abandoned.  All of these report a defect in
/// profile construction, not bad user input: no file is written when any
/// of them occurs.
#[derive(Clone, Copy, Debug, PartialEq, Eq, Structural)]
pub enum GenerationError {
    /// A triangle's area fell below the minimum, or its normal could not
    /// be derived.
    DegenerateTriangle,
    /// Some edge is not shared by exactly two triangles with opposite
    /// winding.
    NotWatertight,
    /// The signed volume of the closed surface was not positive.
    NonPositiveVolume,
}

/// A point in mesh units (2^-10 mm); the ring axis is Z.
#[derive(Clone, Copy, Debug, PartialEq, Eq, Structural)]
pub struct Vertex3 {
    pub x: i64,
    pub y: i64,
    pub z: i64,
}

/// An oriented triangle with its outward normal in Q16 units.
#[derive(Clone, Copy, Debug, PartialEq, Eq, Structural)]
pub struct Triangle {
    pub v0: Vertex3,
    pub v1: Vertex3,
    pub v2: Vertex3,
    pub nx: i64,
    pub ny: i64,
    pub nz: i64,
}

/// An unordered collection of triangles meant to bound a solid.
pub struct Mesh {
    pub triangles: Vec<Triangle>,
}

pub open spec fn vertex_in_range(v: Vertex3) -> bool {
    &&& -COORD_LIMIT < v.x < COORD_LIMIT
    &&& -COORD_LIMIT < v.y < COORD_LIMIT
    &&& -COORD_LIMIT < v.z < COORD_LIMIT
}

/// X component of `(v1 - v0) x (v2 - v0)`.
pub open spec fn spec_cross_x(v0: Vertex3, v1: Vertex3, v2: Vertex3) -> int {
    (v1.y - v0.y) * (v2.z - v0.z) - (v1.z - v0.z) * (v2.y - v0.y)
}

pub open spec fn spec_cross_y(v0: Vertex3, v1: Vertex3, v2: Vertex3) -> int {
    (v1.z - v0.z) * (v2.x - v0.x) - (v1.x - v0.x) * (v2.z - v0.z)
}

pub open spec fn spec_cross_z(v0: Vertex3, v1: Vertex3, v2: Vertex3) -> int {
    (v1.x - v0.x) * (v2.y - v0.y) - (v1.y - v0.y) * (v2.x - v0.x)
}

/// Squared length of the cross product: four times the squared triangle
/// area.
pub open spec fn spec_cross_sq(v0: Vertex3, v1: Vertex3, v2: Vertex3) -> int {
    spec_cross_x(v0, v1, v2) * spec_cross_x(v0, v1, v2) + spec_cross_y(v0, v1, v2) * spec_cross_y(
        v0,
        v1,
        v2,
    ) + spec_cross_z(v0, v1, v2) * spec_cross_z(v0, v1, v2)
}

/// Integer square root, defined inductively.
pub open spec fn spec_isqrt(n: nat) -> nat
    decreases n,
{
    if n == 0 {
        0
    } else {
        let r = spec_isqrt((n - 1) as nat);
        if (r + 1) * (r + 1) <= n {
            r + 1
        } else {
            r
        }
    }
}

pub proof fn lemma_spec_isqrt(n: nat)
    ensures
        spec_isqrt(n) * spec_isqrt(n) <= n,
        n < (spec_isqrt(n) + 1) * (spec_isqrt(n) + 1),
    decreases n,
{
    if n == 0 {
        assert(spec_isqrt(n) == 0);
        assert(spec_isqrt(n) * spec_isqrt(n) == 0) by (nonlinear_arith)
            requires
                spec_isqrt(n) == 0,
        ;
        assert((spec_isqrt(n) + 1) * (spec_isqrt(n) + 1) == 1) by (nonlinear_arith)
            requires
                spec_isqrt(n) == 0,
        ;
    } else {
        lemma_spec_isqrt((n - 1) as nat);
        let r = spec_isqrt((n - 1) as nat);
        if (r + 1) * (r + 1) <= n {
            assert(spec_isqrt(n) == r + 1);
            assert(n - 1 < (r + 1) * (r + 1));
            assert(n == (r + 1) * (r + 1));
            assert(n < (r + 2) * (r + 2)) by (nonlinear_arith)
                requires
                    n == (r + 1) * (r + 1),
            ;
            assert(n < (spec_isqrt(n) + 1) * (spec_isqrt(n) + 1));
        } else {
            assert(spec_isqrt(n) == r);
        }
    }
}

pub proof fn lemma_isqrt_unique(n: nat, r: nat)
    requires
        r * r <= n,
        n < (r + 1) * (r + 1),
    ensures
        r == spec_isqrt(n),
{
    lemma_spec_isqrt(n);
    let s = spec_isqrt(n);
    if r < s {
        assert(s * s <= n);
        assert((r + 1) * (r + 1) <= s * s) by (nonlinear_arith)
            requires
                r + 1 <= s,
        ;
        assert(false);
    }
    if s < r {
        assert((s + 1) * (s + 1) <= r * r) by (nonlinear_arith)
            requires
                s + 1 <= r,
        ;
        assert(false);
    }
}

/// One signed normal component: the cross-product component scaled to Q16
/// against the cross product's length, rounded toward zero.
pub open spec fn spec_normal_comp(c: int, norm: int) -> int {
    if c >= 0 {
        (c * 65536) / norm
    } else {
        -((-c * 65536) / norm)
    }
}

/// A triangle is well formed when its vertices are in coordinate range,
/// it clears the minimum area, and its normal fields are exactly the Q16
/// scaled direction of its winding cross product.
pub open spec fn triangle_wf(t: Triangle) -> bool {
    let norm = spec_isqrt(spec_cross_sq(t.v0, t.v1, t.v2) as nat) as int;
    &&& vertex_in_range(t.v0)
    &&& vertex_in_range(t.v1)
    &&& vertex_in_range(t.v2)
    &&& spec_cross_sq(t.v0, t.v1, t.v2) >= MIN_CROSS_SQ
    &&& t.nx == spec_normal_comp(spec_cross_x(t.v0, t.v1, t.v2), norm)
    &&& t.ny == spec_normal_comp(spec_cross_y(t.v0, t.v1, t.v2), norm)
    &&& t.nz == spec_normal_comp(spec_cross_z(t.v0, t.v1, t.v2), norm)
    &&& -65536 <= t.nx <= 65536
    &&& -65536 <= t.ny <= 65536
    &&& -65536 <= t.nz <= 65536
}

impl Mesh {
    /// Every triangle well formed, and the count within the hard cap.
    pub open spec fn wf(self) -> bool {
        &&& self.triangles@.len() <= MAX_TRIANGLES
        &&& forall|i: int|
            0 <= i < self.triangles@.len() ==> triangle_wf(#[trigger] self.triangles@[i])
    }

    pub fn triangle_count(&self) -> (r: usize)
        ensures
            r == self.triangles@.len(),
    {
        self.triangles.len()
    }
}

/// Integer square root of `n`, by bisection.
pub fn isqrt_u128(n: u128) -> (r: u64)
    requires
        n < 0x1_000000_000000_000000_000000_000000,
    ensures
        r == spec_isqrt(n as nat),
        (r as int) * (r as int) <= n as int,
        (n as int) < (r as int + 1) * (r as int + 1),
{
    let mut lo: u64 = 0;
    let mut hi: u64 = 0x1000_0000_0000_0000;
    while lo < hi
        invariant
            lo <= hi <= 0x1000_0000_0000_0000,
            (lo as int) * (lo as int) <= n as int,
            (n as int) < (hi as int + 1) * (hi as int + 1),
        decreases hi - lo,
    {
        let mid: u64 = lo + (hi - lo + 1) / 2;
        assert(lo < mid <= hi);
        assert((mid as int) * (mid as int) <= 0x1_000000_000000_000000_000000_000000)
            by (nonlinear_arith)
            requires
                0 <= mid <= 0x1000_0000_0000_0000,
        ;
        let sq: u128 = (mid as u128) * (mid as u128);
        if sq <= n {
            lo = mid;
        } else {
            hi = mid - 1;
        }
    }
    proof {
        lemma_isqrt_unique(n as nat, lo as nat);
    }
    lo
}

/// The 2x2 determinant `a * d - c * b`, for entries small enough that it
/// cannot overflow.
fn det2(a: i64, b: i64, c: i64, d: i64) -> (r: i64)
    requires
        -0x200_0000 < a < 0x200_0000,
        -0x200_0000 < b < 0x200_0000,
        -0x200_0000 < c < 0x200_0000,
        -0x200_0000 < d < 0x200_0000,
    ensures
        r == a as int * d as int - c as int * b as int,
        -0x8_0000_0000_0000 < r < 0x8_0000_0000_0000,
{
    proof {
        assert(-0x4_0000_0000_0000 < (a as int) * (d as int) < 0x4_0000_0000_0000)
            by (nonlinear_arith)
            requires
                -0x200_0000 < a < 0x200_0000,
                -0x200_0000 < d < 0x200_0000,
        ;
        assert(-0x4_0000_0000_0000 < (c as int) * (b as int) < 0x4_0000_0000_0000)
            by (nonlinear_arith)
            requires
                -0x200_0000 < b < 0x200_0000,
                -0x200_0000 < c < 0x200_0000,
        ;
    }
    a * d - c * b
}

/// Magnitude of a bounded signed value.
fn abs_mag(c: i64) -> (r: u64)
    requires
        -0x8_0000_0000_0000 < c < 0x8_0000_0000_0000,
    ensures
        r == (if c >= 0 {
            c as int
        } else {
            -c as int
        }),
        r < 0x8_0000_0000_0000,
{
    if c >= 0 {
        c as u64
    } else {
        (-c) as u64
    }
}

/// Builds a triangle from three vertices, deriving the outward normal
/// from the winding.  Fails exactly when the squared cross-product length
/// falls below `MIN_CROSS_SQ` (degenerate or near-degenerate geometry).
pub fn make_triangle(v0: Vertex3, v1: Vertex3, v2: Vertex3) -> (r: Result<
    Triangle,
    GenerationError,
>)
    requires
        vertex_in_range(v0),
        vertex_in_range(v1),
        vertex_in_range(v2),
    ensures
        match r {
            Ok(t) => t.v0 == v0 && t.v1 == v1 && t.v2 == v2 && triangle_wf(t),
            Err(e) => e == GenerationError::DegenerateTriangle,
        },
        r is Ok <==> spec_cross_sq(v0, v1, v2) >= MIN_CROSS_SQ,
{
    let cx: i64 = det2(v1.y - v0.y, v2.y - v0.y, v1.z - v0.z, v2.z - v0.z);
    let cy: i64 = det2(v1.z - v0.z, v2.z - v0.z, v1.x - v0.x, v2.x - v0.x);
    let cz: i64 = det2(v1.x - v0.x, v2.x - v0.x, v1.y - v0.y, v2.y - v0.y);
    assert(cx == spec_cross_x(v0, v1, v2));
    assert(cy == spec_cross_y(v0, v1, v2));
    assert(cz == spec_cross_z(v0, v1, v2));
    let cxa: u64 = abs_mag(cx);
    let cya: u64 = abs_mag(cy);
    let cza: u64 = abs_mag(cz);
    proof {
        lemma_abs_square(cx as int, cxa as int);
        lemma_abs_square(cy as int, cya as int);
        lemma_abs_square(cz as int, cza as int);
    }
    let sqx: u128 = (cxa as u128) * (cxa as u128);
    let sqy: u128 = (cya as u128) * (cya as u128);
    let sqz: u128 = (cza as u128) * (cza as u128);
    let sq: u128 = sqx + sqy + sqz;
    assert(sq == spec_cross_sq(v0, v1, v2));
    if sq < MIN_CROSS_SQ {
        return Err(GenerationError::DegenerateTriangle);
    }
    let norm: u64 = isqrt_u128(sq);
    proof {
        if norm == 0 {
            assert((norm as int + 1) * (norm as int + 1) == 1) by (nonlinear_arith)
                requires
                    norm == 0,
            ;
            assert(false);
        }
    }
    let nx: i64 = normal_comp_exec(cx, cxa, norm, Ghost(sq as nat));
    let ny: i64 = normal_comp_exec(cy, cya, norm, Ghost(sq as nat));
    let nz: i64 = normal_comp_exec(cz, cza, norm, Ghost(sq as nat));
    Ok(Triangle { v0, v1, v2, nx, ny, nz })
}

proof fn lemma_abs_square(c: int, ca: int)
    requires
        ca == (if c >= 0 {
            c
        } else {
            -c
        }),
        ca < 0x8_0000_0000_0000,
    ensures
        ca * ca == c * c,
        ca * ca < 0x40_0000_0000_0000_0000_0000_0000,
{
    assert(ca * ca == c * c) by (nonlinear_arith)
        requires
            ca == (if c >= 0 {
                c
            } else {
                -c
            }),
    ;
    assert(ca * ca < 0x40_0000_0000_0000_0000_0000_0000) by (nonlinear_arith)
        requires
            0 <= ca < 0x8_0000_0000_0000,
    ;
}

/// Scales one cross-product component to Q16 against the cross-product
/// length `norm`, where `norm` is the integer square root of `sq` and
/// `c * c <= sq`.
fn normal_comp_exec(c: i64, ca: u64, norm: u64, sq: Ghost<nat>) -> (r: i64)
    requires
        ca == (if c >= 0 {
            c as int
        } else {
            -c as int
        }),
        norm == spec_isqrt(sq@),
        1 <= norm,
        (ca as int) * (ca as int) <= sq@,
    ensures
        r == spec_normal_comp(c as int, norm as int),
        -65536 <= r <= 65536,
{
    proof {
        lemma_spec_isqrt(sq@);
        // ca <= norm: otherwise ca >= norm + 1 would square past sq
        if ca > norm {
            assert((norm as int + 1) * (norm as int + 1) <= (ca as int) * (ca as int))
                by (nonlinear_arith)
                requires
                    norm as int + 1 <= ca as int,
            ;
            assert(false);
        }
        lemma_div_is_ordered((ca as int) * 65536, (norm as int) * 65536, norm as int);
        lemma_div_by_multiple(65536, norm as int);
        assert((norm as int) * 65536 == 65536 * (norm as int));
        assert(((ca as int) * 65536) / (norm as int) <= 65536);
    }
    let mag: u64 = (((ca as u128) * 65536) / (norm as u128)) as u64;
    if c >= 0 {
        mag as i64
    } else {
        -(mag as i64)
    }
}

/// Six times the signed volume contribution of one triangle: the scalar
/// triple product `v0 . (v1 x v2)`.  Over a closed surface with outward
/// winding these contributions sum to six times the enclosed volume.
pub open spec fn spec_vol6_tri(t: Triangle) -> int {
    t.v0.x * (t.v1.y * t.v2.z - t.v1.z * t.v2.y) - t.v0.y * (t.v1.x * t.v2.z - t.v1.z * t.v2.x)
        + t.v0.z * (t.v1.x * t.v2.y - t.v1.y * t.v2.x)
}

/// Six times the signed volume enclosed by the triangle collection.
pub open spec fn spec_vol6(s: Seq<Triangle>) -> int
    decreases s.len(),
{
    if s.len() == 0 {
        0
    } else {
        spec_vol6(s.drop_last()) + spec_vol6_tri(s.last())
    }
}

fn vol6_tri(t: &Triangle) -> (r: i128)
    requires
        vertex_in_range(t.v0),
        vertex_in_range(t.v1),
        vertex_in_range(t.v2),
    ensures
        r == spec_vol6_tri(*t),
        -0x2_0000_0000_0000_0000_0000 < r < 0x2_0000_0000_0000_0000_0000,
{
    let m1: i64 = det2(t.v1.y, t.v2.y, t.v1.z, t.v2.z);
    let m2: i64 = det2(t.v1.x, t.v2.x, t.v1.z, t.v2.z);
    let m3: i64 = det2(t.v1.x, t.v2.x, t.v1.y, t.v2.y);
    proof {
        lemma_coord_times_det(t.v0.x as int, m1 as int);
        lemma_coord_times_det(t.v0.y as int, m2 as int);
        lemma_coord_times_det(t.v0.z as int, m3 as int);
    }
    (t.v0.x as i128) * (m1 as i128) - (t.v0.y as i128) * (m2 as i128) + (t.v0.z as i128) * (
    m3 as i128)
}

proof fn lemma_coord_times_det(c: int, m: int)
    requires
        -COORD_LIMIT < c < COORD_LIMIT,
        -0x8_0000_0000_0000 < m < 0x8_0000_0000_0000,
    ensures
        -0x8000_0000_0000_0000_0000 < c * m < 0x8000_0000_0000_0000_0000,
{
    assert(-0x8000_0000_0000_0000_0000 < c * m < 0x8000_0000_0000_0000_0000) by (nonlinear_arith)
        requires
            -0x100_0000 <= c <= 0x100_0000,
            -0x8_0000_0000_0000 < m < 0x8_0000_0000_0000,
    ;
}

/// Six times the signed volume of the mesh, summed in exact arithmetic.
pub fn signed_volume6(m: &Mesh) -> (r: i128)
    requires
        m.wf(),
    ensures
        r == spec_vol6(m.triangles@),
{
    let n = m.triangles.len();
    let mut acc: i128 = 0;
    let mut idx: usize = 0;
    while idx < n
        invariant
            m.wf(),
            n == m.triangles@.len(),
            idx <= n,
            acc == spec_vol6(m.triangles@.subrange(0, idx as int)),
            -0x2_0000_0000_0000_0000_0000 * (idx as i128) <= acc <= 0x2_0000_0000_0000_0000_0000
                * (idx as i128),
        decreases n - idx,
    {
        let t = m.triangles[idx];
        let dv = vol6_tri(&t);
        proof {
            let pre = m.triangles@.subrange(0, idx as int);
            let post = m.triangles@.subrange(0, idx as int + 1);
            assert(post.drop_last() =~= pre);
            assert(post.last() == m.triangles@[idx as int]);
        }
        acc = acc + dv;
        idx = idx + 1;
    }
    proof {
        assert(m.triangles@.subrange(0, n as int) =~= m.triangles@);
    }
    acc
}

/// First vertex of directed edge `e` of `t` (edges 0, 1, 2 run
/// `v0 -> v1 -> v2 -> v0`).
pub open spec fn tri_edge_a(t: Triangle, e: int) -> Vertex3 {
    if e == 0 {
        t.v0
    } else if e == 1 {
        t.v1
    } else {
        t.v2
    }
}

/// Second vertex of directed edge `e` of `t`.
pub open spec fn tri_edge_b(t: Triangle, e: int) -> Vertex3 {
    if e == 0 {
        t.v1
    } else if e == 1 {
        t.v2
    } else {
        t.v0
    }
}

/// How many of `t`'s three directed edges equal `(a, b)`.
pub open spec fn edge_count_tri(t: Triangle, a: Vertex3, b: Vertex3) -> int {
    (if t.v0 == a && t.v1 == b {
        1int
    } else {
        0int
    }) + (if t.v1 == a && t.v2 == b {
        1int
    } else {
        0int
    }) + (if t.v2 == a && t.v0 == b {
        1int
    } else {
        0int
    })
}

/// How many directed edges equal to `(a, b)` occur across the whole
/// collection.
pub open spec fn edge_count(s: Seq<Triangle>, a: Vertex3, b: Vertex3) -> int
    decreases s.len(),
{
    if s.len() == 0 {
        0
    } else {
        edge_count(s.drop_last(), a, b) + edge_count_tri(s.last(), a, b)
    }
}

/// The closed-surface property: every directed edge occurs exactly once,
/// and its reversal also occurs exactly once - so every undirected edge
/// is shared by exactly two triangles with opposite winding.
pub open spec fn watertight(s: Seq<Triangle>) -> bool {
    forall|i: int, e: int|
        0 <= i < s.len() && 0 <= e < 3 ==> {
            &&& edge_count(s, #[trigger] tri_edge_a(s[i], e), tri_edge_b(s[i], e)) == 1
            &&& edge_count(s, tri_edge_b(s[i], e), tri_edge_a(s[i], e)) == 1
        }
}

proof fn lemma_edge_count_nonneg(s: Seq<Triangle>, a: Vertex3, b: Vertex3)
    ensures
        0 <= edge_count(s, a, b) <= 3 * s.len(),
    decreases s.len(),
{
    if s.len() > 0 {
        lemma_edge_count_nonneg(s.drop_last(), a, b);
    }
}

/// Counts the occurrences of directed edge `(a, b)` over all triangles.
fn count_edge(tris: &Vec<Triangle>, a: Vertex3, b: Vertex3) -> (r: u64)
    requires
        tris@.len() <= MAX_TRIANGLES,
    ensures
        r == edge_count(tris@, a, b),
{
    let n = tris.len();
    let mut r: u64 = 0;
    let mut j: usize = 0;
    while j < n
        invariant
            n == tris@.len() <= MAX_TRIANGLES,
            j <= n,
            r == edge_count(tris@.subrange(0, j as int), a, b),
            r <= 3 * (j as u64),
        decreases n - j,
    {
        proof {
            lemma_edge_count_nonneg(tris@.subrange(0, j as int), a, b);
            let pre = tris@.subrange(0, j as int);
            let post = tris@.subrange(0, j as int + 1);
            assert(post.drop_last() =~= pre);
            assert(post.last() == tris@[j as int]);
        }
        let t = &tris[j];
        if t.v0 == a && t.v1 == b {
            r = r + 1;
        }
        if t.v1 == a && t.v2 == b {
            r = r + 1;
        }
        if t.v2 == a && t.v0 == b {
            r = r + 1;
        }
        j = j + 1;
    }
    proof {
        assert(tris@.subrange(0, n as int) =~= tris@);
    }
    r
}

/// Checks that all three directed edges of triangle `i`, and their
/// reversals, occur exactly once each over the collection.
fn edges_balanced_at(tris: &Vec<Triangle>, i: usize) -> (r: bool)
    requires
        tris@.len() <= MAX_TRIANGLES,
        i < tris@.len(),
    ensures
        r == forall|e: int|
            0 <= e < 3 ==> {
                &&& edge_count(tris@, #[trigger] tri_edge_a(tris@[i as int], e), tri_edge_b(tris@[i as int], e)) == 1
                &&& edge_count(tris@, tri_edge_b(tris@[i as int], e), tri_edge_a(tris@[i as int], e)) == 1
            },
{
    let t = tris[i];
    let ok0 = count_edge(tris, t.v0, t.v1) == 1 && count_edge(tris, t.v1, t.v0) == 1;
    let ok1 = count_edge(tris, t.v1, t.v2) == 1 && count_edge(tris, t.v2, t.v1) == 1;
    let ok2 = count_edge(tris, t.v2, t.v0) == 1 && count_edge(tris, t.v0, t.v2) == 1;
    let r = ok0 && ok1 && ok2;
    proof {
        assert(tri_edge_a(tris@[i as int], 0) == t.v0);
        assert(tri_edge_a(tris@[i as int], 1) == t.v1);
        assert(tri_edge_a(tris@[i as int], 2) == t.v2);
        assert(tri_edge_b(tris@[i as int], 0) == t.v1);
        assert(tri_edge_b(tris@[i as int], 1) == t.v2);
        assert(tri_edge_b(tris@[i as int], 2) == t.v0);
    }
    r
}

/// Decides the closed-surface property for the whole collection.
pub fn is_watertight(tris: &Vec<Triangle>) -> (r: bool)
    requires
        tris@.len() <= MAX_TRIANGLES,
    ensures
        r == watertight(tris@),
{
    let n = tris.len();
    let mut i: usize = 0;
    while i < n
        invariant
            n == tris@.len() <= MAX_TRIANGLES,
            i <= n,
            forall|i2: int, e: int|
                0 <= i2 < i && 0 <= e < 3 ==> {
                    &&& edge_count(tris@, #[trigger] tri_edge_a(tris@[i2], e), tri_edge_b(tris@[i2], e)) == 1
                    &&& edge_count(tris@, tri_edge_b(tris@[i2], e), tri_edge_a(tris@[i2], e)) == 1
                },
        decreases n - i,
    {
        if !edges_balanced_at(tris, i) {
            proof {
                let e = choose|e: int|
                    0 <= e < 3 && !{
                        &&& edge_count(tris@, tri_edge_a(tris@[i as int], e), tri_edge_b(tris@[i as int], e)) == 1
                        &&& edge_count(tris@, tri_edge_b(tris@[i as int], e), tri_edge_a(tris@[i as int], e)) == 1
                    };
                assert(!watertight(tris@));
            }
            return false;
        }
        i = i + 1;
    }
    true
}

pub proof fn lemma_vol6_tri_bound(t: Triangle)
    requires
        vertex_in_range(t.v0),
        vertex_in_range(t.v1),
        vertex_in_range(t.v2),
    ensures
        -0x2_0000_0000_0000_0000_0000 < spec_vol6_tri(t) < 0x2_0000_0000_0000_0000_0000,
{
    assert(-0x8_0000_0000_0000 < t.v1.y * t.v2.z - t.v1.z * t.v2.y < 0x8_0000_0000_0000)
        by (nonlinear_arith)
        requires
            -0x100_0000 < t.v1.y < 0x100_0000,
            -0x100_0000 < t.v1.z < 0x100_0000,
            -0x100_0000 < t.v2.y < 0x100_0000,
            -0x100_0000 < t.v2.z < 0x100_0000,
    ;
    assert(-0x8_0000_0000_0000 < t.v1.x * t.v2.z - t.v1.z * t.v2.x < 0x8_0000_0000_0000)
        by (nonlinear_arith)
        requires
            -0x100_0000 < t.v1.x < 0x100_0000,
            -0x100_0000 < t.v1.z < 0x100_0000,
            -0x100_0000 < t.v2.x < 0x100_0000,
            -0x100_0000 < t.v2.z < 0x100_0000,
    ;
    assert(-0x8_0000_0000_0000 < t.v1.x * t.v2.y - t.v1.y * t.v2.x < 0x8_0000_0000_0000)
        by (nonlinear_arith)
        requires
            -0x100_0000 < t.v1.x < 0x100_0000,
            -0x100_0000 < t.v1.y < 0x100_0000,
            -0x100_0000 < t.v2.x < 0x100_0000,
            -0x100_0000 < t.v2.y < 0x100_0000,
    ;
    lemma_coord_times_det(t.v0.x as int, t.v1.y * t.v2.z - t.v1.z * t.v2.y);
    lemma_coord_times_det(t.v0.y as int, t.v1.x * t.v2.z - t.v1.z * t.v2.x);
    lemma_coord_times_det(t.v0.z as int, t.v1.x * t.v2.y - t.v1.y * t.v2.x);
}

/// The signed volume sum of a well-formed mesh is bounded by the count
/// times the per-triangle bound; this keeps downstream unit conversions
/// exact.
pub proof fn lemma_vol6_bound(s: Seq<Triangle>)
    requires
        forall|i: int| 0 <= i < s.len() ==> triangle_wf(#[trigger] s[i]),
    ensures
        -0x2_0000_0000_0000_0000_0000 * s.len() <= spec_vol6(s) <= 0x2_0000_0000_0000_0000_0000
            * s.len(),
    decreases s.len(),
{
    if s.len() > 0 {
        assert(forall|i: int|
            0 <= i < s.drop_last().len() ==> triangle_wf(#[trigger] s.drop_last()[i]));
        lemma_vol6_bound(s.drop_last());
        assert(triangle_wf(s[s.len() - 1]));
        lemma_vol6_tri_bound(s.last());
    }
}

/// Verdict on a finished mesh: accepted exactly when it is watertight
/// and encloses a positive volume.  (The per-triangle minimum area is
/// enforced earlier, when each triangle is built.)
pub fn check_solid(m: &Mesh) -> (r: Result<(), GenerationError>)
    requires
        m.wf(),
    ensures
        match r {
            Ok(()) => watertight(m.triangles@) && spec_vol6(m.triangles@) > 0,
            Err(GenerationError::NotWatertight) => !watertight(m.triangles@),
            Err(GenerationError::NonPositiveVolume) => watertight(m.triangles@) && spec_vol6(
                m.triangles@,
            ) <= 0,
            Err(GenerationError::DegenerateTriangle) => false,
        },
{
    if !is_watertight(&m.triangles) {
        return Err(GenerationError::NotWatertight);
    }
    if signed_volume6(m) <= 0 {
        return Err(GenerationError::NonPositiveVolume);
    }
    Ok(())
}

} // verus!
