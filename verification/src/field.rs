//! The field contracts: a compile-time descriptor of a byte window
//! ([`Field`]) and the read/write operation pair over that window
//! ([`FieldCopyAccess`]), together with the laws every such field obeys.

use vstd::prelude::*;
use crate::bytes::splice;
use crate::bytes::lemma_splice_empty;
use crate::bytes::lemma_splice_window;
use crate::endian::Endianness;

verus! {

/// A compile-time field descriptor: a byte-order tag, a fixed start offset,
/// and either a fixed size or `None` for an unsized trailing field. These are
/// properties of the type itself; no value of the type is ever needed.
pub trait Field {
    /// The byte-order tag the field uses.
    type Endian: Endianness;

    /// The field's start offset inside the storage buffer, in bytes.
    spec fn spec_offset() -> usize;

    /// The field's size in bytes, or `None` for an unsized trailing field.
    spec fn spec_size() -> Option<usize>;

    /// Returns the field's start offset.
    fn offset() -> (r: usize)
        ensures
            r == Self::spec_offset(),
    ;

    /// Returns the field's size.
    fn size() -> (r: Option<usize>)
        ensures
            r == Self::spec_size(),
    ;
}

/// The byte window of field `F` inside a buffer holding the bytes `s`:
/// the field's own slice of the buffer.
pub open spec fn field_window<F: Field + ?Sized>(s: Seq<u8>) -> Seq<u8> {
    match F::spec_size() {
        Some(n) => s.subrange(F::spec_offset() as int, F::spec_offset() + n),
        None => s.skip(F::spec_offset() as int),
    }
}

/// True when a buffer of `len` bytes is long enough to hold field `F`.
pub open spec fn field_in_bounds<F: Field + ?Sized>(len: int) -> bool {
    match F::spec_size() {
        Some(n) => F::spec_offset() + n <= len,
        None => F::spec_offset() <= len,
    }
}

/// True when the byte windows of fields `A` and `B` cannot overlap, so that a
/// write through one never changes what the other reads.
pub open spec fn fields_disjoint<A: Field + ?Sized, B: Field + ?Sized>() -> bool {
    match (A::spec_size(), B::spec_size()) {
        (Some(an), Some(bn)) => A::spec_offset() + an <= B::spec_offset() || B::spec_offset() + bn
            <= A::spec_offset(),
        (Some(an), None) => A::spec_offset() + an <= B::spec_offset(),
        (None, Some(bn)) => B::spec_offset() + bn <= A::spec_offset(),
        (None, None) => false,
    }
}

/// A field with a fixed-size window that a high-level value is copied into
/// and out of. `spec_encode` is the exact byte image a value leaves in the
/// window; `spec_decode` is the value any window contents read back as.
pub trait FieldCopyAccess: Field {
    /// The type a caller reads from and writes to this field.
    type HighLevelType;

    /// The bytes that writing `v` puts into the field's window.
    spec fn spec_encode(v: Self::HighLevelType) -> Seq<u8>;

    /// The value that the window contents `w` read back as.
    spec fn spec_decode(w: Seq<u8>) -> Self::HighLevelType;

    /// A copy-access field has a fixed size, and every value's byte image
    /// fills the window exactly.
    proof fn lemma_encode_len(v: Self::HighLevelType)
        ensures
            Self::spec_size() matches Some(n) && Self::spec_encode(v).len() == n,
    ;

    /// Decoding a value's own byte image gives the value back.
    proof fn lemma_decode_encode(v: Self::HighLevelType)
        ensures
            Self::spec_decode(Self::spec_encode(v)) == v,
    ;

    /// Reads the field's window of `storage` and decodes it.
    fn read(storage: &Vec<u8>) -> (r: Self::HighLevelType)
        requires
            field_in_bounds::<Self>(storage.len() as int),
        ensures
            r == Self::spec_decode(field_window::<Self>(storage@)),
    ;

    /// Encodes `v` and overwrites the field's window of `storage` with it,
    /// leaving every byte outside the window unchanged.
    fn write(storage: &mut Vec<u8>, v: Self::HighLevelType)
        requires
            field_in_bounds::<Self>(old(storage).len() as int),
        ensures
            final(storage)@ == splice(
                old(storage)@,
                Self::spec_offset() as int,
                Self::spec_encode(v),
            ),
    ;
}

/// Round-trip law: after writing `v` through field `F` into a buffer holding
/// `s`, reading field `F` back gives exactly `v`.
pub proof fn lemma_read_of_write<F: FieldCopyAccess>(s: Seq<u8>, v: F::HighLevelType)
    requires
        field_in_bounds::<F>(s.len() as int),
    ensures
        F::spec_decode(field_window::<F>(splice(s, F::spec_offset() as int, F::spec_encode(v))))
            == v,
{
    F::lemma_encode_len(v);
    lemma_splice_window(s, F::spec_offset() as int, F::spec_encode(v));
    F::lemma_decode_encode(v);
}

/// Non-interference law: writing field `A` leaves the window of any disjoint
/// field `B` byte-for-byte unchanged, so `B` reads back the same value.
pub proof fn lemma_write_noninterference<A: FieldCopyAccess, B: FieldCopyAccess>(
    s: Seq<u8>,
    v: A::HighLevelType,
)
    requires
        field_in_bounds::<A>(s.len() as int),
        field_in_bounds::<B>(s.len() as int),
        fields_disjoint::<A, B>(),
    ensures
        field_window::<B>(splice(s, A::spec_offset() as int, A::spec_encode(v)))
            == field_window::<B>(s),
{
    A::lemma_encode_len(v);
    let off = A::spec_offset() as int;
    let w = A::spec_encode(v);
    let t = splice(s, off, w);
    crate::bytes::lemma_splice_len(s, off, w);
    assert forall|i: int| 0 <= i < s.len() && (i < off || off + w.len() <= i) implies t[i] == s[i] by {
        crate::bytes::lemma_splice_outside(s, off, w, i);
    }
    assert(field_window::<B>(t) =~= field_window::<B>(s));
}

/// Zero-size no-op law: writing a field whose size is zero leaves the whole
/// buffer exactly as it was.
pub proof fn lemma_zero_size_write_is_noop<F: FieldCopyAccess>(s: Seq<u8>, v: F::HighLevelType)
    requires
        F::spec_size() == Some(0usize),
        field_in_bounds::<F>(s.len() as int),
    ensures
        splice(s, F::spec_offset() as int, F::spec_encode(v)) == s,
{
    F::lemma_encode_len(v);
    lemma_splice_empty(s, F::spec_offset() as int, F::spec_encode(v));
}

} // verus!
