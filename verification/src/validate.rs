//! Manufacturability validation against print limits.  The limits are an
//! explicit value rather than module state, so callers (and tests) can
//! check a ring against a different printer's envelope; the standard
//! limits describe a common consumer machine.

use vstd::prelude::*;
use crate::params::{RingParameters, MIN_WALL_THICKNESS_NM};

verus! {

/// Standard build-plate bound on the outer diameter, in micrometres
/// (220 mm).
pub const MAX_BED_DIAMETER_UM: i64 = 220_000;

/// Standard minimum bore, in micrometres (1 mm): below this the bore is
/// effectively closed and the part is not an optics ring any more.
pub const MIN_BORE_DIAMETER_UM: i64 = 1_000;

/// Print limits a ring is validated against.
#[derive(Clone, Copy, Debug, PartialEq, Eq, Structural)]
pub struct PrintLimits {
    pub min_wall_nm: i64,
    pub max_outer_um: i64,
    pub min_inner_um: i64,
}

/// The standard consumer-printer limits.
pub open spec fn spec_standard_limits() -> PrintLimits {
    PrintLimits {
        min_wall_nm: MIN_WALL_THICKNESS_NM,
        max_outer_um: MAX_BED_DIAMETER_UM,
        min_inner_um: MIN_BORE_DIAMETER_UM,
    }
}

impl PrintLimits {
    pub fn standard() -> (r: PrintLimits)
        ensures
            r == spec_standard_limits(),
    {
        PrintLimits {
            min_wall_nm: MIN_WALL_THICKNESS_NM,
            max_outer_um: MAX_BED_DIAMETER_UM,
            min_inner_um: MIN_BORE_DIAMETER_UM,
        }
    }
}

/// One violated print limit.
#[derive(Clone, Copy, Debug, PartialEq, Eq, Structural)]
pub enum ValidationViolation {
    WallBelowMinimum { actual_nm: i64, minimum_nm: i64 },
    ExceedsBuildVolume { outer_um: i64, max_um: i64 },
    BoreTooSmall { inner_um: i64, min_um: i64 },
}

/// The ordered violation list for a ring under the given limits: wall
/// first, then build volume, then bore.
pub open spec fn spec_violations(p: RingParameters, l: PrintLimits) -> Seq<ValidationViolation> {
    (if p.spec_wall_nm() < l.min_wall_nm {
        seq![
            ValidationViolation::WallBelowMinimum {
                actual_nm: p.spec_wall_nm() as i64,
                minimum_nm: l.min_wall_nm,
            },
        ]
    } else {
        Seq::empty()
    }) + (if p.spec_outer_um() > l.max_outer_um {
        seq![
            ValidationViolation::ExceedsBuildVolume {
                outer_um: p.spec_outer_um(),
                max_um: l.max_outer_um,
            },
        ]
    } else {
        Seq::empty()
    }) + (if p.spec_inner_um() < l.min_inner_um {
        seq![
            ValidationViolation::BoreTooSmall {
                inner_um: p.spec_inner_um(),
                min_um: l.min_inner_um,
            },
        ]
    } else {
        Seq::empty()
    })
}

/// Validates a ring against explicit limits.  Returns `Ok` exactly when
/// no limit is violated, and otherwise the full ordered violation list.
pub fn validate_with_limits(p: &RingParameters, l: &PrintLimits) -> (r: Result<
    (),
    Vec<ValidationViolation>,
>)
    ensures
        match r {
            Ok(()) => spec_violations(*p, *l).len() == 0,
            Err(v) => v@ == spec_violations(*p, *l) && v@.len() > 0,
        },
{
    let mut v: Vec<ValidationViolation> = Vec::new();
    let wall = p.wall_thickness_nm();
    if wall < l.min_wall_nm {
        v.push(ValidationViolation::WallBelowMinimum { actual_nm: wall, minimum_nm: l.min_wall_nm });
    }
    if p.outer_um() > l.max_outer_um {
        v.push(
            ValidationViolation::ExceedsBuildVolume {
                outer_um: p.outer_um(),
                max_um: l.max_outer_um,
            },
        );
    }
    if p.inner_um() < l.min_inner_um {
        v.push(
            ValidationViolation::BoreTooSmall { inner_um: p.inner_um(), min_um: l.min_inner_um },
        );
    }
    assert(v@ =~= spec_violations(*p, *l));
    if v.len() == 0 {
        Ok(())
    } else {
        Err(v)
    }
}

/// Validates a ring against the standard limits.  With construction
/// already enforcing the 1 mm wall, only the build-volume and bore
/// limits can fail here.
pub fn validate_for_printing(p: &RingParameters) -> (r: Result<(), Vec<ValidationViolation>>)
    ensures
        match r {
            Ok(()) => spec_violations(*p, spec_standard_limits()).len() == 0,
            Err(v) => v@ == spec_violations(*p, spec_standard_limits()) && v@.len() > 0,
        },
{
    let l = PrintLimits::standard();
    validate_with_limits(p, &l)
}

} // verus!
