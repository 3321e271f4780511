//! Generator core for 3D-printable optics support rings.
//!
//! The library turns a ring variant and a pair of diameters into a closed
//! triangulated solid and its binary STL image.  All dimensions are carried
//! as exact integers: diameters in micrometres, derived wall thickness in
//! nanometres, and mesh coordinates in units of 2^-10 mm.  That last choice
//! makes every coordinate exactly representable as an IEEE-754 binary32
//! value, so the STL encoder is exact integer logic with nothing rounded
//! at serialization time.
//!
//! File and terminal I/O stay outside this crate: callers receive the file
//! name, the resolved output path and the encoded bytes, and write them out
//! themselves.

pub mod numfmt;
pub mod params;
pub mod trig;
pub mod mesh;
pub mod builder;
pub mod stl;
pub mod validate;
pub mod report;
pub mod form;
