//! The parameter model: the ring variant, the two diameters, and the
//! derived wall thickness.  Diameters are held in micrometres and the wall
//! thickness in nanometres, so every derived quantity is exact.
//!
//! Validation policy: all three input rules (positive diameters, outer
//! strictly greater than inner, wall at least 1 mm) are enforced here, at
//! construction.  `validate_for_printing` re-checks the wall only against
//! caller-chosen print limits.

use vstd::prelude::*;
use vstd::string::StringExecFns;
use crate::numfmt::{append_digit, append_u64, dec_seq, digit_char};

verus! {

/// Minimum manufacturable wall thickness, in nanometres (1.0 mm).
pub const MIN_WALL_THICKNESS_NM: i64 = 1_000_000;

/// Largest supported outer diameter, in micrometres (10 m).  The bound is a
/// machine limit, not a print limit: it keeps the wall thickness in
/// nanometres and every mesh coordinate in the range where the geometry
/// and the STL encoding are exact.
pub const MAX_DIAMETER_UM: i64 = 10_000_000;

/// The three supported ring profiles.
#[derive(Clone, Copy, Debug, PartialEq, Eq, Structural)]
pub enum RingType {
    /// Profile whose bore-side edge arcs toward the ring axis, cradling a lens.
    Convex,
    /// Mirror of `Convex`: the bore-side edge arcs away from the axis.
    Concave,
    /// Plain ring plus three contact pads spaced 120 degrees apart.
    ThreePoint,
}

impl RingType {
    /// Two-letter code used in file names and display.
    pub open spec fn spec_code(self) -> Seq<char> {
        match self {
            RingType::Convex => seq!['C', 'X'],
            RingType::Concave => seq!['C', 'C'],
            RingType::ThreePoint => seq!['3', 'P'],
        }
    }

    /// Human-readable variant name.
    pub open spec fn spec_label(self) -> Seq<char> {
        match self {
            RingType::Convex => seq!['C', 'o', 'n', 'v', 'e', 'x'],
            RingType::Concave => seq!['C', 'o', 'n', 'c', 'a', 'v', 'e'],
            RingType::ThreePoint => seq!['T', 'h', 'r', 'e', 'e', '-', 'p', 'o', 'i', 'n', 't'],
        }
    }

    pub fn code(&self) -> (r: &'static str)
        ensures
            r@ == self.spec_code(),
    {
        match self {
            RingType::Convex => {
                proof {
                    reveal_strlit("CX");
                    assert("CX"@ =~= seq!['C', 'X']);
                }
                "CX"
            },
            RingType::Concave => {
                proof {
                    reveal_strlit("CC");
                    assert("CC"@ =~= seq!['C', 'C']);
                }
                "CC"
            },
            RingType::ThreePoint => {
                proof {
                    reveal_strlit("3P");
                    assert("3P"@ =~= seq!['3', 'P']);
                }
                "3P"
            },
        }
    }

    pub fn label(&self) -> (r: &'static str)
        ensures
            r@ == self.spec_label(),
    {
        match self {
            RingType::Convex => {
                proof {
                    reveal_strlit("Convex");
                    assert("Convex"@ =~= seq!['C', 'o', 'n', 'v', 'e', 'x']);
                }
                "Convex"
            },
            RingType::Concave => {
                proof {
                    reveal_strlit("Concave");
                    assert("Concave"@ =~= seq!['C', 'o', 'n', 'c', 'a', 'v', 'e']);
                }
                "Concave"
            },
            RingType::ThreePoint => {
                proof {
                    reveal_strlit("Three-point");
                    assert("Three-point"@ =~= seq![
                        'T', 'h', 'r', 'e', 'e', '-', 'p', 'o', 'i', 'n', 't',
                    ]);
                }
                "Three-point"
            },
        }
    }
}

/// Why a parameter set was rejected at construction.
#[derive(Clone, Copy, Debug, PartialEq, Eq, Structural)]
pub enum ValidationError {
    /// A diameter was zero or negative.
    NonPositiveDimension,
    /// The outer diameter did not exceed the inner one.
    OuterNotGreaterThanInner,
    /// The wall `(outer - inner) / 2` came out below the minimum.
    WallTooThin { actual_nm: i64, minimum_nm: i64 },
}

/// A validated, immutable description of one ring to generate.
#[derive(Clone, Copy, Debug)]
pub struct RingParameters {
    ring_type: RingType,
    outer_um: i64,
    inner_um: i64,
}

/// Rounded tenths of a millimetre for a micrometre value; this is the
/// display precision of the inner diameter in file names.
pub open spec fn spec_tenths_mm(um: int) -> int {
    (um + 50) / 100
}

/// The file name `{code}-{inner diameter, one decimal}.stl`.
pub open spec fn spec_filename(rt: RingType, inner_um: int) -> Seq<char> {
    rt.spec_code() + seq!['-'] + spec_mm_one_decimal(spec_tenths_mm(inner_um)) + seq![
        '.', 's', 't', 'l',
    ]
}

/// A tenths-of-a-millimetre count rendered as `{whole}.{tenth}`.
pub open spec fn spec_mm_one_decimal(tenths: int) -> Seq<char> {
    dec_seq((tenths / 10) as nat) + seq!['.'] + seq![digit_char(tenths % 10)]
}

impl RingParameters {
    /// All constructed values satisfy the three validation rules and the
    /// machine bound on the outer diameter.
    #[verifier::type_invariant]
    pub open spec fn valid(self) -> bool {
        &&& 0 < self.spec_inner_um()
        &&& self.spec_inner_um() < self.spec_outer_um()
        &&& self.spec_outer_um() <= MAX_DIAMETER_UM
        &&& (self.spec_outer_um() - self.spec_inner_um()) * 500 >= MIN_WALL_THICKNESS_NM
    }

    pub closed spec fn spec_ring_type(self) -> RingType {
        self.ring_type
    }

    pub closed spec fn spec_outer_um(self) -> i64 {
        self.outer_um
    }

    pub closed spec fn spec_inner_um(self) -> i64 {
        self.inner_um
    }

    /// Derived wall thickness in nanometres: exactly `(outer - inner) / 2`
    /// of the micrometre diameters.
    pub open spec fn spec_wall_nm(self) -> int {
        (self.spec_outer_um() - self.spec_inner_um()) * 500
    }

    /// Validates and constructs a parameter set.  Succeeds exactly when
    /// both diameters are positive, the outer exceeds the inner, and the
    /// derived wall is at least `MIN_WALL_THICKNESS_NM`; otherwise reports
    /// the first rule violated, in that order.
    pub fn new(ring_type: RingType, outer_um: i64, inner_um: i64) -> (r: Result<
        RingParameters,
        ValidationError,
    >)
        requires
            // machine limit: keeps derived arithmetic exact; no input that
            // the validation rules reject is excluded by it
            0 < inner_um < outer_um ==> outer_um <= MAX_DIAMETER_UM,
        ensures
            match r {
                Ok(p) => {
                    &&& p.spec_ring_type() == ring_type
                    &&& p.spec_outer_um() == outer_um
                    &&& p.spec_inner_um() == inner_um
                    &&& 0 < inner_um < outer_um
                    &&& p.spec_wall_nm() >= MIN_WALL_THICKNESS_NM
                },
                Err(ValidationError::NonPositiveDimension) => outer_um <= 0 || inner_um <= 0,
                Err(ValidationError::OuterNotGreaterThanInner) => 0 < outer_um && 0 < inner_um
                    && outer_um <= inner_um,
                Err(ValidationError::WallTooThin { actual_nm, minimum_nm }) => {
                    &&& 0 < inner_um < outer_um
                    &&& actual_nm == (outer_um - inner_um) * 500
                    &&& minimum_nm == MIN_WALL_THICKNESS_NM
                    &&& actual_nm < MIN_WALL_THICKNESS_NM
                },
            },
            r is Ok <==> (0 < inner_um && inner_um < outer_um && (outer_um - inner_um) * 500
                >= MIN_WALL_THICKNESS_NM),
    {
        if outer_um <= 0 || inner_um <= 0 {
            return Err(ValidationError::NonPositiveDimension);
        }
        if outer_um <= inner_um {
            return Err(ValidationError::OuterNotGreaterThanInner);
        }
        let wall_nm: i64 = (outer_um - inner_um) * 500;
        if wall_nm < MIN_WALL_THICKNESS_NM {
            return Err(ValidationError::WallTooThin {
                actual_nm: wall_nm,
                minimum_nm: MIN_WALL_THICKNESS_NM,
            });
        }
        Ok(RingParameters { ring_type, outer_um, inner_um })
    }

    pub fn ring_type(&self) -> (r: RingType)
        ensures
            r == self.spec_ring_type(),
    {
        self.ring_type
    }

    pub fn outer_um(&self) -> (r: i64)
        ensures
            r == self.spec_outer_um(),
            self.valid(),
    {
        proof {
            use_type_invariant(&*self);
        }
        self.outer_um
    }

    pub fn inner_um(&self) -> (r: i64)
        ensures
            r == self.spec_inner_um(),
            self.valid(),
    {
        proof {
            use_type_invariant(&*self);
        }
        self.inner_um
    }

    /// The exact derived wall thickness in nanometres.
    pub fn wall_thickness_nm(&self) -> (r: i64)
        ensures
            r == self.spec_wall_nm(),
            r >= MIN_WALL_THICKNESS_NM,
            self.valid(),
    {
        proof {
            use_type_invariant(&*self);
        }
        (self.outer_um - self.inner_um) * 500
    }

    /// The output file name; a pure function of the variant and the inner
    /// diameter.
    pub fn filename(&self) -> (r: String)
        ensures
            r@ == spec_filename(self.spec_ring_type(), self.spec_inner_um() as int),
    {
        proof {
            use_type_invariant(&*self);
        }
        let mut s = String::new();
        s.append(self.ring_type.code());
        proof {
            reveal_strlit("-");
            assert("-"@ =~= seq!['-']);
        }
        s.append("-");
        let tenths: u64 = ((self.inner_um as u64) + 50) / 100;
        append_u64(&mut s, tenths / 10);
        proof {
            reveal_strlit(".");
            assert("."@ =~= seq!['.']);
        }
        s.append(".");
        append_digit(&mut s, tenths % 10);
        proof {
            reveal_strlit(".stl");
            assert(".stl"@ =~= seq!['.', 's', 't', 'l']);
        }
        s.append(".stl");
        proof {
            assert(tenths as int == spec_tenths_mm(self.spec_inner_um() as int));
            assert(s@ =~= spec_filename(self.spec_ring_type(), self.spec_inner_um() as int));
        }
        s
    }
}

/// The file name is a pure function of the variant and the inner diameter
/// (see `spec_filename`), and it is injective in the displayed precision:
/// two inner diameters that round to different tenths of a millimetre give
/// different file names for the same variant.
pub proof fn lemma_filename_injective(rt: RingType, a_um: int, b_um: int)
    requires
        0 <= a_um,
        0 <= b_um,
        spec_tenths_mm(a_um) != spec_tenths_mm(b_um),
    ensures
        spec_filename(rt, a_um) != spec_filename(rt, b_um),
{
    let ta = spec_tenths_mm(a_um);
    let tb = spec_tenths_mm(b_um);
    let sa = spec_filename(rt, a_um);
    let sb = spec_filename(rt, b_um);
    let da = dec_seq((ta / 10) as nat);
    let db = dec_seq((tb / 10) as nat);
    assert(rt.spec_code().len() == 2) by {
        match rt {
            RingType::Convex => {},
            RingType::Concave => {},
            RingType::ThreePoint => {},
        }
    }
    if sa == sb {
        // equal lengths force the digit runs to have equal length
        assert(sa.len() == da.len() + 9);
        assert(sb.len() == db.len() + 9);
        let la = da.len() as int;
        assert(da.len() == db.len());
        // the whole-millimetre digit runs coincide
        assert forall|i: int| 0 <= i < la implies da[i] == db[i] by {
            assert(sa[3 + i] == da[i]);
            assert(sb[3 + i] == db[i]);
        }
        assert(da =~= db);
        crate::numfmt::lemma_dec_round_trip((ta / 10) as nat);
        crate::numfmt::lemma_dec_round_trip((tb / 10) as nat);
        assert(ta / 10 == tb / 10);
        // and so do the tenth digits
        assert(sa[4 + la] == digit_char(ta % 10));
        assert(sb[4 + la] == digit_char(tb % 10));
        crate::numfmt::lemma_digit_char_val(ta % 10);
        crate::numfmt::lemma_digit_char_val(tb % 10);
        assert(ta % 10 == tb % 10);
        assert(ta == tb);
        assert(false);
    }
}

} // verus!
