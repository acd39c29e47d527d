//! Typed fields at fixed offsets of a raw byte buffer.
//!
//! A field descriptor is a type: it fixes an offset, a size and a byte order
//! at compile time, and reads or writes a high-level value through that window
//! of a caller-owned buffer. [`WrappedField`] extends any such field to an
//! arbitrary domain type via a bidirectional conversion ([`LayoutAs`]) while
//! inheriting the inner field's offset, size and byte order unchanged.

mod bytes;
mod endian;
mod field;
mod primitive;
mod view;
mod wrapped;

pub use bytes::endian_bytes;
pub use bytes::endian_decode;
pub use bytes::le_bytes;
pub use bytes::le_decode;
pub use bytes::pow256;
pub use bytes::splice;
pub use primitive::rep_signed;
pub use primitive::signed_rep;
pub use primitive::PrimitiveField;
pub use primitive::PrimitiveValue;
pub use field::field_in_bounds;
pub use field::field_window;
pub use field::fields_disjoint;
pub use field::lemma_read_of_write;
pub use field::lemma_write_noninterference;
pub use field::lemma_zero_size_write_is_noop;
pub use field::Field;
pub use field::FieldCopyAccess;
pub use view::FieldView;
pub use wrapped::lemma_wrapped_layout_unchanged;
pub use wrapped::lemma_wrapped_write_raw;
pub use wrapped::LayoutAs;
pub use wrapped::Wrapped;
pub use wrapped::WrappedField;
pub use endian::BigEndian;
pub use endian::EndianKind;
pub use endian::Endianness;
pub use endian::LittleEndian;
