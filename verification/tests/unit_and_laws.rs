use core::convert::TryInto;

use binary_layout::Field;
use binary_layout::FieldCopyAccess;
use binary_layout::BigEndian;
use binary_layout::LittleEndian;
use binary_layout::PrimitiveField;
use binary_layout::Wrapped;
use binary_layout::WrappedField;

#[test]
fn test_unit_littleendian() {
    let mut storage = vec![0; 1024];

    WrappedField::<(), Wrapped<()>, PrimitiveField<(), LittleEndian, 5>>::write(
        &mut storage,
        Wrapped(()),
    );
    WrappedField::<(), Wrapped<()>, PrimitiveField<(), LittleEndian, 123>>::write(
        &mut storage,
        Wrapped(()),
    );

    assert_eq!(
        Wrapped(()),
        WrappedField::<(), Wrapped<()>, PrimitiveField<(), LittleEndian, 5>>::read(&storage)
    );
    assert_eq!(
        Wrapped(()),
        WrappedField::<(), Wrapped<()>, PrimitiveField<(), LittleEndian, 123>>::read(&storage)
    );

    assert_eq!(
        Some(0),
        WrappedField::<(), Wrapped<()>, PrimitiveField<(), LittleEndian, 5>>::size()
    );
    assert_eq!(
        5,
        WrappedField::<(), Wrapped<()>, PrimitiveField<(), LittleEndian, 5>>::offset()
    );
    assert_eq!(
        Some(0),
        WrappedField::<(), Wrapped<()>, PrimitiveField<(), LittleEndian, 123>>::size()
    );
    assert_eq!(
        123,
        WrappedField::<(), Wrapped<()>, PrimitiveField<(), LittleEndian, 123>>::offset()
    );

    // Zero-sized fields never mutate the storage.
    assert_eq!(storage, vec![0; 1024]);
}

#[test]
fn test_unit_bigendian() {
    let mut storage = vec![0; 1024];

    WrappedField::<(), Wrapped<()>, PrimitiveField<(), BigEndian, 5>>::write(
        &mut storage,
        Wrapped(()),
    );
    WrappedField::<(), Wrapped<()>, PrimitiveField<(), BigEndian, 123>>::write(
        &mut storage,
        Wrapped(()),
    );

    assert_eq!(
        Wrapped(()),
        WrappedField::<(), Wrapped<()>, PrimitiveField<(), BigEndian, 5>>::read(&storage)
    );
    assert_eq!(
        Wrapped(()),
        WrappedField::<(), Wrapped<()>, PrimitiveField<(), BigEndian, 123>>::read(&storage)
    );

    assert_eq!(
        Some(0),
        WrappedField::<(), Wrapped<()>, PrimitiveField<(), BigEndian, 5>>::size()
    );
    assert_eq!(
        Some(0),
        WrappedField::<(), Wrapped<()>, PrimitiveField<(), BigEndian, 123>>::size()
    );

    // Zero-sized fields never mutate the storage.
    assert_eq!(storage, vec![0; 1024]);
}

// The scenario of the design: a `u32` little-endian field at offset 5, the
// conversion wrapping and unwrapping a single-field tuple struct.
#[test]
fn test_scenario_u32_little_endian_offset_5() {
    let mut storage = vec![0; 1024];

    WrappedField::<u32, Wrapped<u32>, PrimitiveField<u32, LittleEndian, 5>>::write(
        &mut storage,
        Wrapped(100000000),
    );

    assert_eq!(100000000u32.to_le_bytes(), storage[5..9]);
    assert_eq!(
        Wrapped(100000000),
        WrappedField::<u32, Wrapped<u32>, PrimitiveField<u32, LittleEndian, 5>>::read(&storage)
    );
}

// Writing one field leaves the bytes and the value of a disjoint field
// untouched.
#[test]
fn test_non_interference_of_disjoint_fields() {
    let mut storage = vec![0; 1024];

    WrappedField::<u64, Wrapped<u64>, PrimitiveField<u64, BigEndian, 123>>::write(
        &mut storage,
        Wrapped(0xabcdef0011223344),
    );
    let other_window_before = storage[123..131].to_vec();

    WrappedField::<u32, Wrapped<u32>, PrimitiveField<u32, LittleEndian, 5>>::write(
        &mut storage,
        Wrapped(100000000),
    );
    WrappedField::<u32, Wrapped<u32>, PrimitiveField<u32, LittleEndian, 5>>::write(
        &mut storage,
        Wrapped(7),
    );

    assert_eq!(other_window_before, storage[123..131].to_vec());
    assert_eq!(
        Wrapped(0xabcdef0011223344),
        WrappedField::<u64, Wrapped<u64>, PrimitiveField<u64, BigEndian, 123>>::read(&storage)
    );
}

// The byte image of a wrapped field is the inner field's byte image of the
// converted value, at two different non-zero offsets.
#[test]
fn test_raw_bytes_match_underlying_value() {
    let mut storage = vec![0; 1024];

    WrappedField::<u16, Wrapped<u16>, PrimitiveField<u16, BigEndian, 5>>::write(
        &mut storage,
        Wrapped(0x1234),
    );
    WrappedField::<u16, Wrapped<u16>, PrimitiveField<u16, LittleEndian, 123>>::write(
        &mut storage,
        Wrapped(0x5678),
    );

    assert_eq!(0x1234, u16::from_be_bytes((&storage[5..7]).try_into().unwrap()));
    assert_eq!(0x5678, u16::from_le_bytes((&storage[123..125]).try_into().unwrap()));
    assert_eq!(&[0x12, 0x34], &storage[5..7]);
    assert_eq!(&[0x78, 0x56], &storage[123..125]);
}

// Reading bytes that were placed by hand, not by this library's own writer:
// the decoder must agree with the documented byte orders.
#[test]
fn test_read_from_handwritten_bytes() {
    let mut storage = vec![0; 32];
    storage[5] = 0x01;
    storage[6] = 0x02;
    storage[7] = 0x03;
    storage[8] = 0x04;

    assert_eq!(
        Wrapped(0x04030201),
        WrappedField::<u32, Wrapped<u32>, PrimitiveField<u32, LittleEndian, 5>>::read(&storage)
    );
    assert_eq!(
        Wrapped(0x01020304),
        WrappedField::<u32, Wrapped<u32>, PrimitiveField<u32, BigEndian, 5>>::read(&storage)
    );

    // A negative two's-complement value, read back through a signed field.
    storage[10] = 0xff;
    storage[11] = 0xfe;
    assert_eq!(
        Wrapped(-2),
        WrappedField::<i16, Wrapped<i16>, PrimitiveField<i16, BigEndian, 10>>::read(&storage)
    );
    assert_eq!(
        Wrapped(-257),
        WrappedField::<i16, Wrapped<i16>, PrimitiveField<i16, LittleEndian, 10>>::read(&storage)
    );
}
