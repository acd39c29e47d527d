//! Views: a field type bound to one concrete storage reference, for
//! ergonomic repeated access. Binding never transcodes; bytes move only when
//! the view's own `read` and `write` run. Three storage modes are supported:
//! a shared borrow (readers), a mutable borrow (one writer), and owned
//! storage (moved in, and recoverable with [`FieldView::into_storage`]).

use vstd::prelude::*;
use core::marker::PhantomData;
use crate::bytes::splice;
use crate::field::field_in_bounds;
use crate::field::field_window;
use crate::field::FieldCopyAccess;

verus! {

/// A field `F` bound to the storage reference `storage`: reads and writes go
/// through `F` at its own offset, size and byte order.
pub struct FieldView<S, F: FieldCopyAccess> {
    pub storage: S,
    pub _field: PhantomData<F>,
}

impl<'a, F: FieldCopyAccess> FieldView<&'a Vec<u8>, F> {
    /// Binds the field to a shared borrow of the storage. Only binds: no
    /// byte is read until [`Self::read`] runs.
    pub fn new(storage: &'a Vec<u8>) -> (r: Self)
        ensures
            r.storage == storage,
    {
        FieldView { storage, _field: PhantomData }
    }

    /// Reads the field's window of the bound storage.
    pub fn read(&self) -> (r: F::HighLevelType)
        requires
            field_in_bounds::<F>(self.storage.len() as int),
        ensures
            r == F::spec_decode(field_window::<F>(self.storage@)),
    {
        F::read(self.storage)
    }
}

impl<'a, F: FieldCopyAccess> FieldView<&'a mut Vec<u8>, F> {
    /// Binds the field to a mutable borrow of the storage. Only binds: no
    /// byte moves until the view's own operations run.
    pub fn new_mut(storage: &'a mut Vec<u8>) -> (r: Self)
        ensures
            *r.storage == *old(storage),
            *final(r.storage) == *final(storage),
    {
        FieldView { storage, _field: PhantomData }
    }

    /// Reads the field's window of the bound storage.
    pub fn read(&self) -> (r: F::HighLevelType)
        requires
            field_in_bounds::<F>(self.storage.len() as int),
        ensures
            r == F::spec_decode(field_window::<F>(old(self.storage)@)),
    {
        F::read(self.storage)
    }

    /// Writes `v` into the field's window of the bound storage, leaving the
    /// bytes outside the window unchanged. The view stays bound to the same
    /// borrow, so the write reaches the storage the view was made from.
    pub fn write(&mut self, v: F::HighLevelType)
        requires
            field_in_bounds::<F>(old(self).storage.len() as int),
        ensures
            (*final(self).storage)@ == splice(
                (*old(self).storage)@,
                F::spec_offset() as int,
                F::spec_encode(v),
            ),
            *final(final(self).storage) == *final(old(self).storage),
    {
        F::write(self.storage, v)
    }
}

impl<F: FieldCopyAccess> FieldView<Vec<u8>, F> {
    /// Binds the field to storage moved into the view. Only binds: no byte
    /// moves until the view's own operations run.
    pub fn new_owned(storage: Vec<u8>) -> (r: Self)
        ensures
            r.storage == storage,
    {
        FieldView { storage, _field: PhantomData }
    }

    /// Reads the field's window of the owned storage.
    pub fn read(&self) -> (r: F::HighLevelType)
        requires
            field_in_bounds::<F>(self.storage.len() as int),
        ensures
            r == F::spec_decode(field_window::<F>(self.storage@)),
    {
        F::read(&self.storage)
    }

    /// Writes `v` into the field's window of the owned storage, leaving the
    /// bytes outside the window unchanged.
    pub fn write(&mut self, v: F::HighLevelType)
        requires
            field_in_bounds::<F>(old(self).storage.len() as int),
        ensures
            final(self).storage@ == splice(
                old(self).storage@,
                F::spec_offset() as int,
                F::spec_encode(v),
            ),
    {
        F::write(&mut self.storage, v)
    }

    /// Hands the storage back, exactly as the view last left it.
    pub fn into_storage(self) -> (r: Vec<u8>)
        ensures
            r == self.storage,
    {
        self.storage
    }
}

} // verus!
