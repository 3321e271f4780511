//! Binary STL serialization: an 80-byte header, a little-endian 32-bit
//! triangle count, then one 50-byte record per triangle (normal, three
//! vertices, two attribute bytes fixed at zero), each scalar an IEEE-754
//! binary32 value in little-endian order.
//!
//! Every scalar the mesh can hold is of the form `m / 2^s` with
//! `|m| < 2^24` (coordinates: `s = 10`; normals: `s = 16`), so it is a
//! normal float whose significand fits exactly: the encoder below is
//! exact integer logic, and what lands in the file is the mesh, bit for
//! bit.  An interrupted write by the caller can still leave a short
//! file on disk; the byte layout proved here is of the full image.

use vstd::prelude::*;
use vstd::arithmetic::power2::{
    pow2,
    lemma2_to64,
    lemma_pow2_adds,
    lemma_pow2_pos,
    lemma_pow2_strictly_increases,
};
use vstd::arithmetic::div_mod::{lemma_fundamental_div_mod, lemma_div_denominator, lemma_small_mod};
use vstd::arithmetic::mul::lemma_mul_strict_inequality;
use crate::mesh::{Mesh, Triangle, triangle_wf, MAX_TRIANGLES};

verus! {

/// Most significant bit position of a positive number.
pub open spec fn spec_msb(n: nat) -> nat
    decreases n,
{
    if n < 2 {
        0
    } else {
        1 + spec_msb(n / 2)
    }
}

pub proof fn lemma_msb(n: nat)
    requires
        n >= 1,
    ensures
        pow2(spec_msb(n)) <= n < pow2(spec_msb(n) + 1),
    decreases n,
{
    lemma2_to64();
    if n < 2 {
    } else {
        lemma_msb(n / 2);
        let m = spec_msb(n / 2);
        lemma_pow2_adds(m, 1);
        lemma_pow2_adds(m + 1, 1);
        // n sits between twice the bounds of n / 2
        assert(n == 2 * (n / 2) + n % 2);
        assert(2 * pow2(m) <= n) by (nonlinear_arith)
            requires
                pow2(m) <= n / 2,
                n == 2 * (n / 2) + n % 2,
                n % 2 >= 0,
        ;
        assert(n < 2 * pow2(m + 1)) by (nonlinear_arith)
            requires
                n / 2 < pow2(m + 1),
                n == 2 * (n / 2) + n % 2,
                n % 2 < 2,
        ;
    }
}

pub proof fn lemma_msb_unique(n: nat, p: nat)
    requires
        pow2(p) <= n < pow2(p + 1),
    ensures
        p == spec_msb(n),
{
    lemma_pow2_pos(p);
    lemma_msb(n);
    let m = spec_msb(n);
    if p < m {
        lemma_pow2_strictly_increases(p + 1, m + 1);
        lemma_pow2_strictly_increases(p, m);
        if p + 1 < m {
            lemma_pow2_strictly_increases(p + 1, m);
        }
        assert(pow2(p + 1) <= pow2(m) <= n);
        assert(false);
    }
    if m < p {
        if m + 1 < p {
            lemma_pow2_strictly_increases(m + 1, p);
        }
        assert(pow2(m + 1) <= pow2(p) <= n);
        assert(false);
    }
}

/// The IEEE-754 binary32 bit pattern of the exact value `m / 2^s`, for
/// `|m| < 2^24` and `s <= 16`.  Every nonzero such value is a normal
/// float: with `a = |m|` and `p` the top bit of `a`, the unbiased
/// exponent is `p - s` and the 23-bit fraction is `a` with its top bit
/// cleared, shifted up to width 23.
pub open spec fn spec_f32_bits(m: int, s: nat) -> int
    recommends
        -0x100_0000 < m < 0x100_0000,
        s <= 16,
{
    if m == 0 {
        0
    } else {
        let a = (if m >= 0 {
            m
        } else {
            -m
        }) as nat;
        let p = spec_msb(a);
        let sign: int = if m < 0 {
            0x8000_0000
        } else {
            0
        };
        sign + (p + 127 - s) * 0x80_0000 + (a - pow2(p)) * pow2((23 - p) as nat)
    }
}

/// `2^e` for small exponents.
fn pow2_u64(e: u32) -> (r: u64)
    requires
        e <= 24,
    ensures
        r == pow2(e as nat),
        r <= 0x100_0000,
{
    proof {
        lemma2_to64();
    }
    let mut r: u64 = 1;
    let mut j: u32 = 0;
    while j < e
        invariant
            j <= e <= 24,
            r == pow2(j as nat),
            r <= 0x100_0000,
        decreases e - j,
    {
        proof {
            lemma_pow2_adds(j as nat, 1);
            lemma2_to64();
            if (j as nat) + 1 < 24 {
                lemma_pow2_strictly_increases((j as nat) + 1, 24);
            }
        }
        r = r * 2;
        j = j + 1;
    }
    r
}

/// Top bit position of `a`, found by comparison against the powers of
/// two.
fn msb24(a: u64) -> (p: u32)
    requires
        1 <= a < 0x100_0000,
    ensures
        p == spec_msb(a as nat),
        p <= 23,
        pow2(p as nat) <= a < pow2(p as nat + 1),
{
    proof {
        lemma2_to64();
    }
    let p: u32 = if a >= 0x80_0000 {
        23
    } else if a >= 0x40_0000 {
        22
    } else if a >= 0x20_0000 {
        21
    } else if a >= 0x10_0000 {
        20
    } else if a >= 0x8_0000 {
        19
    } else if a >= 0x4_0000 {
        18
    } else if a >= 0x2_0000 {
        17
    } else if a >= 0x1_0000 {
        16
    } else if a >= 0x8000 {
        15
    } else if a >= 0x4000 {
        14
    } else if a >= 0x2000 {
        13
    } else if a >= 0x1000 {
        12
    } else if a >= 0x800 {
        11
    } else if a >= 0x400 {
        10
    } else if a >= 0x200 {
        9
    } else if a >= 0x100 {
        8
    } else if a >= 0x80 {
        7
    } else if a >= 0x40 {
        6
    } else if a >= 0x20 {
        5
    } else if a >= 0x10 {
        4
    } else if a >= 0x8 {
        3
    } else if a >= 0x4 {
        2
    } else if a >= 0x2 {
        1
    } else {
        0
    };
    proof {
        lemma_msb_unique(a as nat, p as nat);
    }
    p
}

/// Encodes the exact value `m / 2^s` as an IEEE-754 binary32 bit
/// pattern.
pub fn f32_bits(m: i64, s: u32) -> (r: u32)
    requires
        -0x100_0000 < m < 0x100_0000,
        s <= 16,
    ensures
        r == spec_f32_bits(m as int, s as nat),
{
    if m == 0 {
        return 0;
    }
    let a: u64 = if m >= 0 {
        m as u64
    } else {
        (-m) as u64
    };
    let p: u32 = msb24(a);
    let pw: u64 = pow2_u64(p);
    let shift: u64 = pow2_u64(23 - p);
    proof {
        lemma_pow2_pos(p as nat);
        lemma_pow2_pos((23 - p) as nat);
        lemma_pow2_adds(p as nat, (23 - p) as nat);
        lemma2_to64();
        lemma_mul_strict_inequality(
            a as int - pw as int,
            pw as int,
            shift as int,
        );
        assert((a - pw) * shift < pw * shift);
    }
    let frac: u32 = ((a - pw) * shift) as u32;
    let exp: u32 = p + 127 - s;
    let sign: u32 = if m < 0 {
        0x8000_0000
    } else {
        0
    };
    sign + exp * 0x80_0000 + frac
}

/// Four little-endian bytes of a 32-bit value.
pub open spec fn spec_le4(w: int) -> Seq<u8> {
    seq![
        (w % 256) as u8,
        ((w / 256) % 256) as u8,
        ((w / 65536) % 256) as u8,
        ((w / 16777216) % 256) as u8,
    ]
}

/// The value its four little-endian bytes encode, read at `off`.
pub open spec fn spec_le4_val(b: Seq<u8>, off: int) -> int {
    b[off] + 256 * b[off + 1] + 65536 * b[off + 2] + 16777216 * b[off + 3]
}

/// Reading back the four bytes of `spec_le4` recovers the value.
pub proof fn lemma_le4_round_trip(w: int)
    requires
        0 <= w < 0x1_0000_0000,
    ensures
        spec_le4(w)[0] + 256 * spec_le4(w)[1] + 65536 * spec_le4(w)[2] + 16777216 * spec_le4(w)[3]
            == w,
{
    lemma_fundamental_div_mod(w, 256);
    lemma_fundamental_div_mod(w / 256, 256);
    lemma_fundamental_div_mod(w / 65536, 256);
    lemma_div_denominator(w, 256, 256);
    lemma_div_denominator(w, 65536, 256);
    assert(w / 16777216 < 256);
    lemma_small_mod((w / 16777216) as nat, 256);
}

fn push_le4(out: &mut Vec<u8>, w: u32)
    ensures
        final(out)@ == old(out)@ + spec_le4(w as int),
{
    out.push((w % 256) as u8);
    out.push(((w / 256) % 256) as u8);
    out.push(((w / 65536) % 256) as u8);
    out.push(((w / 16777216) % 256) as u8);
    assert(out@ =~= old(out)@ + spec_le4(w as int));
}

/// The 50-byte record of one triangle: Q16 normal, the three vertices in
/// units of 2^-10 mm, and the zero attribute field.
pub open spec fn spec_tri_record(t: Triangle) -> Seq<u8> {
    spec_le4(spec_f32_bits(t.nx as int, 16)) + spec_le4(spec_f32_bits(t.ny as int, 16)) + spec_le4(
        spec_f32_bits(t.nz as int, 16),
    ) + spec_le4(spec_f32_bits(t.v0.x as int, 10)) + spec_le4(spec_f32_bits(t.v0.y as int, 10))
        + spec_le4(spec_f32_bits(t.v0.z as int, 10)) + spec_le4(spec_f32_bits(t.v1.x as int, 10))
        + spec_le4(spec_f32_bits(t.v1.y as int, 10)) + spec_le4(spec_f32_bits(t.v1.z as int, 10))
        + spec_le4(spec_f32_bits(t.v2.x as int, 10)) + spec_le4(spec_f32_bits(t.v2.y as int, 10))
        + spec_le4(spec_f32_bits(t.v2.z as int, 10)) + seq![0u8, 0u8]
}

/// All records, in mesh order.
pub open spec fn spec_records(s: Seq<Triangle>) -> Seq<u8>
    decreases s.len(),
{
    if s.len() == 0 {
        Seq::empty()
    } else {
        spec_records(s.drop_last()) + spec_tri_record(s.last())
    }
}

/// The 80-byte free-form header; this writer leaves it zeroed.
pub open spec fn spec_header() -> Seq<u8> {
    Seq::new(80, |i: int| 0u8)
}

/// The complete byte image of a mesh.
pub open spec fn spec_stl_bytes(s: Seq<Triangle>) -> Seq<u8> {
    spec_header() + spec_le4(s.len() as int) + spec_records(s)
}

#[verifier::rlimit(100)]
pub proof fn lemma_records_len(s: Seq<Triangle>)
    ensures
        spec_records(s).len() == 50 * s.len(),
    decreases s.len(),
{
    if s.len() > 0 {
        lemma_records_len(s.drop_last());
    }
}

#[verifier::rlimit(100)]
fn push_record(out: &mut Vec<u8>, t: &Triangle)
    requires
        triangle_wf(*t),
    ensures
        final(out)@ == old(out)@ + spec_tri_record(*t),
{
    push_le4(out, f32_bits(t.nx, 16));
    push_le4(out, f32_bits(t.ny, 16));
    push_le4(out, f32_bits(t.nz, 16));
    push_le4(out, f32_bits(t.v0.x, 10));
    push_le4(out, f32_bits(t.v0.y, 10));
    push_le4(out, f32_bits(t.v0.z, 10));
    push_le4(out, f32_bits(t.v1.x, 10));
    push_le4(out, f32_bits(t.v1.y, 10));
    push_le4(out, f32_bits(t.v1.z, 10));
    push_le4(out, f32_bits(t.v2.x, 10));
    push_le4(out, f32_bits(t.v2.y, 10));
    push_le4(out, f32_bits(t.v2.z, 10));
    out.push(0u8);
    out.push(0u8);
    assert(out@ =~= old(out)@ + spec_tri_record(*t));
}

/// Serializes the mesh to its exact binary STL image:
/// `80 + 4 + 50 * N` bytes, the count field at offset 80.
#[verifier::rlimit(100)]
pub fn serialize_stl(m: &Mesh) -> (out: Vec<u8>)
    requires
        m.wf(),
    ensures
        out@ == spec_stl_bytes(m.triangles@),
{
    let mut out: Vec<u8> = Vec::new();
    let mut i: usize = 0;
    while i < 80
        invariant
            i <= 80,
            out@.len() == i,
            forall|j: int| 0 <= j < i ==> out@[j] == 0u8,
        decreases 80 - i,
    {
        out.push(0u8);
        i = i + 1;
    }
    assert(out@ =~= spec_header());
    let n: usize = m.triangles.len();
    push_le4(&mut out, n as u32);
    let mut idx: usize = 0;
    while idx < n
        invariant
            m.wf(),
            n == m.triangles@.len(),
            idx <= n,
            out@ == spec_header() + spec_le4(n as int) + spec_records(
                m.triangles@.subrange(0, idx as int),
            ),
        decreases n - idx,
    {
        proof {
            let pre = m.triangles@.subrange(0, idx as int);
            let post = m.triangles@.subrange(0, idx as int + 1);
            assert(post.drop_last() =~= pre);
            assert(post.last() == m.triangles@[idx as int]);
        }
        let t = m.triangles[idx];
        push_record(&mut out, &t);
        idx = idx + 1;
    }
    proof {
        assert(m.triangles@.subrange(0, n as int) =~= m.triangles@);
    }
    out
}

/// Reads the triangle count field back from a binary STL image; `None`
/// exactly when the bytes are too short to hold a header and count.
pub fn stl_triangle_count(bytes: &Vec<u8>) -> (r: Option<u32>)
    ensures
        match r {
            Some(c) => bytes@.len() >= 84 && c as int == spec_le4_val(bytes@, 80),
            None => bytes@.len() < 84,
        },
{
    if bytes.len() < 84 {
        return None;
    }
    let b0 = bytes[80] as u32;
    let b1 = bytes[81] as u32;
    let b2 = bytes[82] as u32;
    let b3 = bytes[83] as u32;
    Some(b0 + 256 * b1 + 65536 * b2 + 16777216 * b3)
}

/// The path a ring is written to: the caller's destination directory
/// joined with the derived file name, or the file name alone (relative
/// to the current directory) when no destination is given.
pub open spec fn spec_output_path(rt: crate::params::RingType, inner_um: int, dest: Option<
    Seq<char>,
>) -> Seq<char> {
    match dest {
        Option::None => crate::params::spec_filename(rt, inner_um),
        Option::Some(d) => d + seq!['/'] + crate::params::spec_filename(rt, inner_um),
    }
}

/// Resolves the output path for a ring.
pub fn resolve_output_path(p: &crate::params::RingParameters, dest_dir: Option<&str>) -> (r:
    String)
    ensures
        r@ == spec_output_path(
            p.spec_ring_type(),
            p.spec_inner_um() as int,
            match dest_dir {
                Option::None => Option::None,
                Option::Some(d) => Option::Some(d@),
            },
        ),
{
    let name = p.filename();
    match dest_dir {
        None => name,
        Some(d) => {
            let mut s = String::new();
            s.append(d);
            proof {
                reveal_strlit("/");
                assert("/"@ =~= seq!['/']);
            }
            s.append("/");
            s.append(name.as_str());
            proof {
                assert(s@ =~= d@ + seq!['/'] + name@);
            }
            s
        },
    }
}

/// Builds, checks and serializes a ring in one call: on success the
/// mesh is a checked solid and the bytes are its exact binary STL
/// image, `84 + 50 * N` bytes for its `N` triangles.
pub fn generate_stl(p: &crate::params::RingParameters) -> (r: Result<
    (Mesh, Vec<u8>),
    crate::mesh::GenerationError,
>)
    ensures
        match r {
            Ok(pair) => {
                &&& pair.0.wf()
                &&& pair.0.triangles@ == crate::builder::spec_grid_mesh(*p)
                &&& crate::mesh::watertight(pair.0.triangles@)
                &&& crate::mesh::spec_vol6(pair.0.triangles@) > 0
                &&& pair.0.triangles@.len() == crate::builder::spec_triangle_count(
                    p.spec_ring_type(),
                    p.spec_outer_um() as int,
                )
                &&& pair.1@ == spec_stl_bytes(pair.0.triangles@)
                &&& pair.1@.len() == 84 + 50 * pair.0.triangles@.len()
                &&& spec_le4_val(pair.1@, 80) == pair.0.triangles@.len()
            },
            Err(e) => match e {
                crate::mesh::GenerationError::DegenerateTriangle => exists|j: int|
                    0 <= j < crate::builder::spec_triangle_count(
                        p.spec_ring_type(),
                        p.spec_outer_um() as int,
                    ) && crate::builder::spec_grid_degenerate(*p, j),
                crate::mesh::GenerationError::NotWatertight => !crate::mesh::watertight(
                    crate::builder::spec_grid_mesh(*p),
                ),
                crate::mesh::GenerationError::NonPositiveVolume => crate::mesh::watertight(
                    crate::builder::spec_grid_mesh(*p),
                ) && crate::mesh::spec_vol6(crate::builder::spec_grid_mesh(*p)) <= 0,
            },
        },
{
    let m = match crate::builder::generate_mesh(p) {
        Ok(m) => m,
        Err(e) => {
            return Err(e);
        },
    };
    let bytes = serialize_stl(&m);
    proof {
        lemma_stl_round_trip(m.triangles@);
    }
    Ok((m, bytes))
}

/// Round trip of the container framing: a serialized mesh of `N`
/// triangles is exactly `84 + 50 * N` bytes long, and the count field
/// read back from it is `N`.
pub proof fn lemma_stl_round_trip(s: Seq<Triangle>)
    requires
        s.len() <= MAX_TRIANGLES,
    ensures
        spec_stl_bytes(s).len() == 84 + 50 * s.len(),
        spec_le4_val(spec_stl_bytes(s), 80) == s.len(),
{
    lemma_records_len(s);
    let b = spec_stl_bytes(s);
    let c = spec_le4(s.len() as int);
    assert(b[80] == c[0]);
    assert(b[81] == c[1]);
    assert(b[82] == c[2]);
    assert(b[83] == c[3]);
    lemma_le4_round_trip(s.len() as int);
}

} // verus!
