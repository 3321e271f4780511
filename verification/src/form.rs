//! Pure decision logic of the interactive parameter form: which field
//! the cursor visits next, which characters a dimension field accepts,
//! and how list selections wrap.  The terminal front end owns the
//! drawing and the key events; it hands both to these functions and
//! applies what they return.

use vstd::prelude::*;
use crate::params::RingType;

verus! {

/// The four fields of the parameter form, in tab order.
#[derive(Clone, Copy, Debug, PartialEq, Eq, Structural)]
pub enum InputField {
    RingType,
    OuterDiameter,
    InnerDiameter,
    OutputDir,
}

impl InputField {
    /// The field after `self` in tab order (cyclic).
    pub open spec fn spec_next(self) -> InputField {
        match self {
            InputField::RingType => InputField::OuterDiameter,
            InputField::OuterDiameter => InputField::InnerDiameter,
            InputField::InnerDiameter => InputField::OutputDir,
            InputField::OutputDir => InputField::RingType,
        }
    }

    /// The field before `self` in tab order (cyclic).
    pub open spec fn spec_previous(self) -> InputField {
        match self {
            InputField::RingType => InputField::OutputDir,
            InputField::OuterDiameter => InputField::RingType,
            InputField::InnerDiameter => InputField::OuterDiameter,
            InputField::OutputDir => InputField::InnerDiameter,
        }
    }

    pub fn next_field(self) -> (r: InputField)
        ensures
            r == self.spec_next(),
            r.spec_previous() == self,
    {
        match self {
            InputField::RingType => InputField::OuterDiameter,
            InputField::OuterDiameter => InputField::InnerDiameter,
            InputField::InnerDiameter => InputField::OutputDir,
            InputField::OutputDir => InputField::RingType,
        }
    }

    pub fn previous_field(self) -> (r: InputField)
        ensures
            r == self.spec_previous(),
            r.spec_next() == self,
    {
        match self {
            InputField::RingType => InputField::OutputDir,
            InputField::OuterDiameter => InputField::RingType,
            InputField::InnerDiameter => InputField::OuterDiameter,
            InputField::OutputDir => InputField::InnerDiameter,
        }
    }
}

/// Whether a typed character belongs in a diameter field: decimal
/// digits and the decimal point, nothing else.
pub fn dimension_char_allowed(c: char) -> (r: bool)
    ensures
        r == (('0' <= c && c <= '9') || c == '.'),
{
    ('0' <= c && c <= '9') || c == '.'
}

/// Moves a list selection up one entry, wrapping to the last entry from
/// the top; an empty or unselected list selects the first entry.
pub fn list_move_up(selected: Option<usize>, len: usize) -> (r: usize)
    ensures
        r == match selected {
            Option::None => 0int,
            Option::Some(i) => if i == 0 {
                if len == 0 {
                    0int
                } else {
                    len - 1
                }
            } else {
                i - 1
            },
        },
{
    match selected {
        None => 0,
        Some(i) => {
            if i == 0 {
                if len == 0 {
                    0
                } else {
                    len - 1
                }
            } else {
                i - 1
            }
        },
    }
}

/// Moves a list selection down one entry, wrapping to the top from the
/// last entry; an empty or unselected list selects the first entry.
pub fn list_move_down(selected: Option<usize>, len: usize) -> (r: usize)
    ensures
        r == match selected {
            Option::None => 0int,
            Option::Some(i) => if i + 1 >= len {
                0int
            } else {
                i + 1
            },
        },
{
    match selected {
        None => 0,
        Some(i) => {
            if len == 0 || i >= len - 1 {
                0
            } else {
                i + 1
            }
        },
    }
}

/// The ring variant shown at a given position of the selection list;
/// out-of-range positions fall back to the first entry.
pub fn ring_type_at(index: usize) -> (r: RingType)
    ensures
        r == (if index == 1 {
            RingType::Concave
        } else if index == 2 {
            RingType::ThreePoint
        } else {
            RingType::Convex
        }),
{
    if index == 1 {
        RingType::Concave
    } else if index == 2 {
        RingType::ThreePoint
    } else {
        RingType::Convex
    }
}

} // verus!
