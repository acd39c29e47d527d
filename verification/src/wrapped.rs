//! Wrapping a field in a domain type: [`LayoutAs`] is the bidirectional
//! conversion a domain type supplies, and [`WrappedField`] composes it with
//! an inner field so that callers read and write the domain type while the
//! inner field's offset, size and byte order stay exactly as they were.

use vstd::prelude::*;
use core::marker::PhantomData;
use crate::field::field_in_bounds;
use crate::field::Field;
use crate::field::FieldCopyAccess;
use crate::view::FieldView;

verus! {

/// Implementing [`LayoutAs`] for a custom type lets that type be used as the
/// high-level type of a field. `read` turns the underlying value into the
/// custom type after raw decoding; `write` turns the custom type back into
/// the underlying value before raw encoding. Both are total: a conversion
/// must map every underlying value to some defined result, because the raw
/// bytes may have been produced outside this library's control. Writing a
/// value and reading it back must give the value again; reading an
/// underlying value the domain type cannot represent may land on any defined
/// fallback.
pub trait LayoutAs<U>: Sized {
    /// What the conversion turns an underlying value into.
    spec fn spec_read(v: U) -> Self;

    /// What the conversion turns a domain value into.
    spec fn spec_write(v: Self) -> U;

    /// Converting a domain value to the underlying type and back gives the
    /// same value: this is the conversion author's obligation.
    proof fn lemma_read_write(v: Self)
        ensures
            Self::spec_read(Self::spec_write(v)) == v,
    ;

    /// Constructs the custom type from the underlying value read from a
    /// field's byte window.
    fn read(v: U) -> (r: Self)
        ensures
            r == Self::spec_read(v),
    ;

    /// Converts the custom type into the underlying value to be written into
    /// a field's byte window.
    fn write(v: Self) -> (r: U)
        ensures
            r == Self::spec_write(v),
    ;
}

/// A field whose high-level type is a custom domain type `T` rather than the
/// primitive type `U` the inner field `F` stores. The conversion between the
/// two is `T`'s [`LayoutAs`] implementation; offset, size and byte order are
/// inherited unchanged from `F`. A zero-storage marker type.
pub struct WrappedField<U, T: LayoutAs<U>, F: Field> {
    _underlying: PhantomData<U>,
    _wrapper: PhantomData<T>,
    _field: PhantomData<F>,
}

impl<U, T: LayoutAs<U>, F: Field> Field for WrappedField<U, T, F> {
    type Endian = F::Endian;

    open spec fn spec_offset() -> usize {
        F::spec_offset()
    }

    open spec fn spec_size() -> Option<usize> {
        F::spec_size()
    }

    fn offset() -> usize {
        F::offset()
    }

    fn size() -> Option<usize> {
        F::size()
    }
}

impl<U, T: LayoutAs<U>, F: FieldCopyAccess<HighLevelType = U>> FieldCopyAccess for WrappedField<
    U,
    T,
    F,
> {
    type HighLevelType = T;

    open spec fn spec_encode(v: T) -> Seq<u8> {
        F::spec_encode(T::spec_write(v))
    }

    open spec fn spec_decode(w: Seq<u8>) -> T {
        T::spec_read(F::spec_decode(w))
    }

    proof fn lemma_encode_len(v: T) {
        F::lemma_encode_len(T::spec_write(v));
    }

    proof fn lemma_decode_encode(v: T) {
        F::lemma_decode_encode(T::spec_write(v));
        T::lemma_read_write(v);
    }

    /// Reads the inner field raw, then applies the conversion: the raw
    /// decoding completes before the conversion runs, and the conversion
    /// never touches the storage.
    fn read(storage: &Vec<u8>) -> T {
        let v = F::read(storage);
        T::read(v)
    }

    /// Applies the conversion, then writes the inner field raw: the domain
    /// value is fully converted before any byte of the storage changes.
    fn write(storage: &mut Vec<u8>, v: T) {
        let v = T::write(v);
        F::write(storage, v)
    }
}

impl<U, T: LayoutAs<U>, F: FieldCopyAccess<HighLevelType = U>> WrappedField<U, T, F> {
    /// Binds this wrapped field to a shared borrow of the storage. Only
    /// binds: no byte is read until the view's `read` runs.
    pub fn view<'a>(storage: &'a Vec<u8>) -> (r: FieldView<&'a Vec<u8>, Self>)
        ensures
            r.storage == storage,
    {
        FieldView::new(storage)
    }

    /// Binds this wrapped field to a mutable borrow of the storage. Only
    /// binds: no byte moves until the view's own operations run.
    pub fn view_mut<'a>(storage: &'a mut Vec<u8>) -> (r: FieldView<&'a mut Vec<u8>, Self>)
        ensures
            *r.storage == *old(storage),
            *final(r.storage) == *final(storage),
    {
        FieldView::new_mut(storage)
    }

    /// Binds this wrapped field to storage moved into the view; the view's
    /// `into_storage` hands it back. Only binds: no byte moves until the
    /// view's own operations run.
    pub fn into_view(storage: Vec<u8>) -> (r: FieldView<Vec<u8>, Self>)
        ensures
            r.storage == storage,
    {
        FieldView::new_owned(storage)
    }
}

/// Wrapping never changes the layout: a wrapped field has exactly the offset
/// and size of the field it wraps, whatever the conversion.
pub proof fn lemma_wrapped_layout_unchanged<U, T: LayoutAs<U>, F: Field>()
    ensures
        WrappedField::<U, T, F>::spec_offset() == F::spec_offset(),
        WrappedField::<U, T, F>::spec_size() == F::spec_size(),
{
}

/// Byte-order fidelity: the bytes a wrapped field writes are exactly the
/// bytes the inner field writes for the converted value, so reading them
/// back raw through the inner field (with its own byte order) gives the
/// underlying value the conversion produced.
pub proof fn lemma_wrapped_write_raw<U, T: LayoutAs<U>, F: FieldCopyAccess<HighLevelType = U>>(
    s: Seq<u8>,
    v: T,
)
    requires
        field_in_bounds::<F>(s.len() as int),
    ensures
        WrappedField::<U, T, F>::spec_encode(v) == F::spec_encode(T::spec_write(v)),
        F::spec_decode(
            crate::field::field_window::<F>(
                crate::bytes::splice(
                    s,
                    F::spec_offset() as int,
                    WrappedField::<U, T, F>::spec_encode(v),
                ),
            ),
        ) == T::spec_write(v),
{
    crate::field::lemma_read_of_write::<F>(s, T::spec_write(v));
}

/// The identity conversion: `Wrapped<T>` stores a `T` unchanged. Handy for
/// giving any primitive-compatible type a distinct domain type.
#[derive(PartialEq, Eq, Debug)]
pub struct Wrapped<T>(pub T);

impl<T> LayoutAs<T> for Wrapped<T> {
    open spec fn spec_read(v: T) -> Self {
        Wrapped(v)
    }

    open spec fn spec_write(v: Self) -> T {
        v.0
    }

    proof fn lemma_read_write(v: Self) {
    }

    fn read(v: T) -> Self {
        Wrapped(v)
    }

    fn write(v: Self) -> T {
        v.0
    }
}

} // verus!
