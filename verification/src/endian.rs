//! Byte-order tags for fields.
//!
//! A field descriptor carries one of these tag types; the tag decides whether
//! the least significant byte of a value is stored first (little-endian) or
//! last (big-endian) inside the field's byte window.

use vstd::prelude::*;

verus! {

/// The two byte orders a field can use.
#[derive(Clone, Copy, PartialEq, Eq, Debug)]
pub enum EndianKind {
    Little,
    Big,
}

/// A byte-order tag type. Implemented by [`LittleEndian`] and [`BigEndian`];
/// a field descriptor names one of them as its `Endian` associated type.
pub trait Endianness {
    /// Which byte order this tag stands for.
    spec fn spec_kind() -> EndianKind;

    /// Returns the byte order this tag stands for.
    fn kind() -> (r: EndianKind)
        ensures
            r == Self::spec_kind(),
    ;
}

/// Tag type: the least significant byte comes first.
pub struct LittleEndian;

/// Tag type: the most significant byte comes first.
pub struct BigEndian;

impl Endianness for LittleEndian {
    open spec fn spec_kind() -> EndianKind {
        EndianKind::Little
    }

    fn kind() -> EndianKind {
        EndianKind::Little
    }
}

impl Endianness for BigEndian {
    open spec fn spec_kind() -> EndianKind {
        EndianKind::Big
    }

    fn kind() -> EndianKind {
        EndianKind::Big
    }
}

} // verus!
