use binary_layout::Field;
use binary_layout::FieldCopyAccess;
use binary_layout::FieldView;
use binary_layout::LittleEndian;
use binary_layout::BigEndian;
use binary_layout::PrimitiveField;
use binary_layout::Wrapped;
use binary_layout::WrappedField;

#[test]
fn test_shared_borrow_view_reads() {
    let mut storage = vec![0; 1024];
    WrappedField::<u32, Wrapped<u32>, PrimitiveField<u32, LittleEndian, 5>>::write(
        &mut storage,
        Wrapped(100000000),
    );

    let view = WrappedField::<u32, Wrapped<u32>, PrimitiveField<u32, LittleEndian, 5>>::view(
        &storage,
    );
    assert_eq!(Wrapped(100000000), view.read());
    // Reading does not consume the view; it can be read again.
    assert_eq!(Wrapped(100000000), view.read());
}

#[test]
fn test_mutable_borrow_view_writes_and_reads() {
    let mut storage = vec![0; 1024];

    let mut view = WrappedField::<u16, Wrapped<u16>, PrimitiveField<u16, BigEndian, 7>>::view_mut(
        &mut storage,
    );
    view.write(Wrapped(0xbeef));
    assert_eq!(Wrapped(0xbeef), view.read());

    // After the view is dropped, the write is visible in the storage itself.
    assert_eq!(&[0xbe, 0xef], &storage[7..9]);
    assert_eq!(0, storage[6]);
    assert_eq!(0, storage[9]);
}

#[test]
fn test_owned_view_round_trip_and_into_storage() {
    let storage = vec![0; 1024];

    let mut view = WrappedField::<u64, Wrapped<u64>, PrimitiveField<u64, LittleEndian, 3>>::into_view(
        storage,
    );
    view.write(Wrapped(1000000000000000));
    assert_eq!(Wrapped(1000000000000000), view.read());

    let storage = view.into_storage();
    assert_eq!(1000000000000000u64.to_le_bytes(), storage[3..11]);
    assert_eq!(1024, storage.len());
}

#[test]
fn test_wrapped_field_reports_inner_layout() {
    // The wrapped field inherits offset and size from the inner field,
    // unchanged by the conversion.
    assert_eq!(
        PrimitiveField::<u32, LittleEndian, 5>::offset(),
        WrappedField::<u32, Wrapped<u32>, PrimitiveField<u32, LittleEndian, 5>>::offset()
    );
    assert_eq!(
        PrimitiveField::<u32, LittleEndian, 5>::size(),
        WrappedField::<u32, Wrapped<u32>, PrimitiveField<u32, LittleEndian, 5>>::size()
    );
    assert_eq!(
        Some(0),
        WrappedField::<(), Wrapped<()>, PrimitiveField<(), BigEndian, 9>>::size()
    );
}

#[test]
fn test_view_construction_alone_leaves_storage_unchanged() {
    let storage = vec![7; 64];
    {
        let view = FieldView::<&Vec<u8>, PrimitiveField<u32, BigEndian, 0>>::new(&storage);
        let _ = view.read();
    }
    assert_eq!(storage, vec![7; 64]);
}
