//! The manufacturing report: a read-only summary computed from the
//! parameters and the generated mesh, and its plain-text rendering.

use vstd::prelude::*;
use vstd::string::StringExecFns;
use crate::params::{RingParameters, RingType};
use crate::mesh::{Mesh, spec_vol6, signed_volume6, lemma_vol6_bound};
use crate::numfmt::{append_u64, append_u128, append_pad3, dec_seq, spec_pad3};

verus! {

/// Derived, read-only summary of one ring and its mesh.
#[derive(Clone, Copy, Debug, PartialEq, Eq, Structural)]
pub struct ManufacturingReport {
    pub variant: RingType,
    /// Exact derived wall thickness, in nanometres.
    pub wall_thickness_nm: i64,
    pub triangle_count: u64,
    /// Approximate enclosed material volume, in thousandths of a cubic
    /// millimetre.
    pub volume_mm3_millis: u128,
    /// Number of discrete contact pads (three for the three-point
    /// variant, none otherwise).
    pub contact_pads: u64,
}

/// Thousandths of a cubic millimetre from six times a volume in cubic
/// mesh units: divide by 6 for the volume and by 2^30 for the unit cube,
/// scale by 1000.  A non-positive signed volume reports as zero.
pub open spec fn spec_volume_mm3_millis(vol6: int) -> int {
    if vol6 <= 0 {
        0
    } else {
        vol6 * 1000 / 6442450944
    }
}

/// Computes the report for a ring and its generated mesh.
pub fn manufacturing_report(p: &RingParameters, m: &Mesh) -> (r: ManufacturingReport)
    requires
        m.wf(),
    ensures
        r.variant == p.spec_ring_type(),
        r.wall_thickness_nm == p.spec_wall_nm(),
        r.triangle_count == m.triangles@.len(),
        r.volume_mm3_millis == spec_volume_mm3_millis(spec_vol6(m.triangles@)),
        r.contact_pads == (if p.spec_ring_type() == RingType::ThreePoint {
            3int
        } else {
            0int
        }),
{
    proof {
        lemma_vol6_bound(m.triangles@);
    }
    let vol6 = signed_volume6(m);
    let millis: u128 = if vol6 <= 0 {
        0
    } else {
        (vol6 as u128) * 1000 / 6442450944
    };
    let variant = p.ring_type();
    ManufacturingReport {
        variant,
        wall_thickness_nm: p.wall_thickness_nm(),
        triangle_count: m.triangle_count() as u64,
        volume_mm3_millis: millis,
        contact_pads: if variant == RingType::ThreePoint {
            3
        } else {
            0
        },
    }
}

/// The plain-text manufacturing summary of a report.
pub open spec fn spec_summary(r: ManufacturingReport) -> Seq<char> {
    "Ring type: "@ + r.variant.spec_label() + " ("@ + r.variant.spec_code()
        + ")\nWall thickness: "@ + dec_seq((r.wall_thickness_nm / 1_000_000) as nat) + "."@
        + spec_pad3((r.wall_thickness_nm / 1000) % 1000) + " mm\nTriangles: "@ + dec_seq(
        r.triangle_count as nat,
    ) + "\nApprox volume: "@ + dec_seq((r.volume_mm3_millis / 1000) as nat) + "."@ + spec_pad3(
        (r.volume_mm3_millis % 1000) as int,
    ) + " mm3\n"@ + (if r.contact_pads > 0 {
        "Contact pads: "@ + dec_seq(r.contact_pads as nat) + "\n"@
    } else {
        Seq::empty()
    })
}

/// Renders the report as plain text, exactly as `spec_summary` lays it
/// out.
pub fn summary_text(r: &ManufacturingReport) -> (s: String)
    requires
        0 <= r.wall_thickness_nm,
    ensures
        s@ == spec_summary(*r),
{
    let mut s = String::new();
    s.append("Ring type: ");
    s.append(r.variant.label());
    s.append(" (");
    s.append(r.variant.code());
    s.append(")\nWall thickness: ");
    let w: u64 = r.wall_thickness_nm as u64;
    append_u64(&mut s, w / 1_000_000);
    s.append(".");
    append_pad3(&mut s, (w / 1000) % 1000);
    s.append(" mm\nTriangles: ");
    append_u64(&mut s, r.triangle_count);
    s.append("\nApprox volume: ");
    append_u128(&mut s, r.volume_mm3_millis / 1000);
    s.append(".");
    append_pad3(&mut s, (r.volume_mm3_millis % 1000) as u64);
    s.append(" mm3\n");
    if r.contact_pads > 0 {
        s.append("Contact pads: ");
        append_u64(&mut s, r.contact_pads);
        s.append("\n");
    }
    assert(s@ =~= spec_summary(*r));
    s
}

} // verus!
