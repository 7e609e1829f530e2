use ssbh_lib::bytes::read_u8;
use ssbh_lib::engine::{SsbhRead, SsbhWrite};
use ssbh_lib::error::SsbhError;
use ssbh_lib::ptr::{read_abs_ptr, Ptr, PtrWidth, RelPtr64};
use ssbh_lib::writer::Writer;

#[test]
fn new_relptr64() {
    let ptr = RelPtr64::new(5u32);
    assert_eq!(Some(5u32), ptr.0);
}

#[test]
fn read_relptr() {
    let bytes = vec![0x09, 0, 0, 0, 0, 0, 0, 0, 0x05, 0x07, 0, 0];
    let (value, next) = RelPtr64::<u8>::read_at(&bytes, 0).unwrap();
    assert_eq!(Some(7u8), value.0);

    // Make sure the reader position is restored.
    let value = read_u8(&bytes, next).unwrap();
    assert_eq!(5u8, value);
}

#[test]
fn read_relptr_null() {
    let bytes = vec![0, 0, 0, 0, 0, 0, 0, 0, 0x05, 0x07, 0, 0];
    let (value, next) = RelPtr64::<u8>::read_at(&bytes, 0).unwrap();
    assert_eq!(None, value.0);

    // Make sure the reader position is restored.
    let value = read_u8(&bytes, next).unwrap();
    assert_eq!(5u8, value);
}

#[test]
fn read_relptr_offset_overflow() {
    let bytes = vec![
        0, 0, 0, 0, 0xFF, 0xFF, 0xFF, 0xFF, 0xFF, 0xFF, 0xFF, 0xFF, 0x05, 0x07, 0, 0,
    ];

    // Make sure this just returns an error instead.
    let result = RelPtr64::<u8>::read_at(&bytes, 4);
    assert!(matches!(result, Err(SsbhError::OffsetOverflow)));

    // Make sure the next field can still be read correctly.
    let value = read_u8(&bytes, 4 + 8).unwrap();
    assert_eq!(5u8, value);
}

#[test]
fn read_ptr8() {
    let bytes = vec![0x04, 0x05, 0, 0, 0x07];
    let (value, next) = read_abs_ptr::<u8>(&bytes, 0, PtrWidth::W8).unwrap();
    assert_eq!(Some(7u8), value.0);

    // Make sure the reader position is restored.
    let value = read_u8(&bytes, next).unwrap();
    assert_eq!(5u8, value);
}

#[test]
fn read_ptr64() {
    let bytes = vec![0x09, 0, 0, 0, 0, 0, 0, 0, 0x05, 0x07, 0, 0];
    let (value, next) = read_abs_ptr::<u8>(&bytes, 0, PtrWidth::W64).unwrap();
    assert_eq!(Some(7u8), value.0);

    // Make sure the reader position is restored.
    let value = read_u8(&bytes, next).unwrap();
    assert_eq!(5u8, value);
}

#[test]
fn read_ptr_null() {
    let bytes = vec![0, 0, 0, 0, 0, 0, 0, 0, 0x05, 0x07, 0, 0];
    let (value, next) = read_abs_ptr::<u8>(&bytes, 0, PtrWidth::W64).unwrap();
    assert_eq!(None, value.0);

    // Make sure the reader position is restored.
    let value = read_u8(&bytes, next).unwrap();
    assert_eq!(5u8, value);
}

#[test]
fn write_ptr16() {
    let value = Ptr::<u8>::new(5u8);

    let mut writer = Writer::new();
    let mut data_ptr = 0;
    ssbh_lib::ptr::write_abs_ptr(&value, PtrWidth::W16, &mut writer, &mut data_ptr).unwrap();

    assert_eq!(writer.into_bytes(), vec![0x02, 0x00, 0x05]);
    assert_eq!(3, data_ptr);
}

#[test]
fn write_ptr32() {
    let value = Ptr::<u8>::new(5u8);

    let mut writer = Writer::new();
    let mut data_ptr = 0;
    ssbh_lib::ptr::write_abs_ptr(&value, PtrWidth::W32, &mut writer, &mut data_ptr).unwrap();

    assert_eq!(writer.into_bytes(), vec![0x04, 0, 0, 0, 0x05]);
    assert_eq!(5, data_ptr);
}

#[test]
fn write_null_ptr32() {
    let value = Ptr::<u8>::null();

    let mut writer = Writer::new();
    let mut data_ptr = 0;
    ssbh_lib::ptr::write_abs_ptr(&value, PtrWidth::W32, &mut writer, &mut data_ptr).unwrap();

    assert_eq!(writer.into_bytes(), vec![0, 0, 0, 0]);
    assert_eq!(4, data_ptr);
}

#[test]
fn write_ptr64() {
    let value = Ptr::<u8>::new(5u8);

    let mut writer = Writer::new();
    let mut data_ptr = 0;
    ssbh_lib::ptr::write_abs_ptr(&value, PtrWidth::W64, &mut writer, &mut data_ptr).unwrap();

    assert_eq!(writer.into_bytes(), vec![0x08, 0, 0, 0, 0, 0, 0, 0, 0x05]);
    assert_eq!(9, data_ptr);
}

#[test]
fn write_ptr64_vec_u8() {
    // Check that the alignment uses the inner type's alignment.
    let value = Ptr::new(vec![5u8]);

    let mut writer = Writer::new();
    let mut data_ptr = 0;
    ssbh_lib::ptr::write_abs_ptr(&value, PtrWidth::W64, &mut writer, &mut data_ptr).unwrap();

    assert_eq!(writer.into_bytes(), vec![0x08, 0, 0, 0, 0, 0, 0, 0, 0x05]);
    assert_eq!(9, data_ptr);
}

#[test]
fn write_ptr64_vec_u32() {
    // Check that the alignment uses the inner type's alignment.
    let value = Ptr::new(vec![5u32]);

    let mut writer = Writer::new();
    let mut data_ptr = 0;
    ssbh_lib::ptr::write_abs_ptr(&value, PtrWidth::W64, &mut writer, &mut data_ptr).unwrap();

    assert_eq!(
        writer.into_bytes(),
        vec![0x08, 0, 0, 0, 0, 0, 0, 0, 0x05, 0, 0, 0]
    );
    assert_eq!(12, data_ptr);
}

#[test]
fn write_null_rel_ptr() {
    let value = RelPtr64::<u32>(None);

    let mut writer = Writer::new();
    let mut data_ptr = 0;
    value.write_ssbh(&mut writer, &mut data_ptr).unwrap();

    assert_eq!(writer.into_bytes(), vec![0, 0, 0, 0, 0, 0, 0, 0]);
    assert_eq!(8, data_ptr);
}

#[test]
fn write_nested_rel_ptr_depth2() {
    let value = RelPtr64::new(RelPtr64::new(7u32));

    let mut writer = Writer::new();
    let mut data_ptr = 0;
    value.write_ssbh(&mut writer, &mut data_ptr).unwrap();

    assert_eq!(
        writer.into_bytes(),
        vec![
            0x08, 0, 0, 0, 0, 0, 0, 0, //
            0x08, 0, 0, 0, 0, 0, 0, 0, //
            0x07, 0, 0, 0,
        ]
    );
    assert_eq!(20, data_ptr);
}

#[test]
fn write_ptr8_offset_too_narrow() {
    // A data cursor past 255 cannot be encoded in an 8-bit offset field.
    let value = Ptr::<u8>::new(5u8);

    let mut writer = Writer::new();
    let mut data_ptr = 300;
    let result = ssbh_lib::ptr::write_abs_ptr(&value, PtrWidth::W8, &mut writer, &mut data_ptr);
    assert!(matches!(result, Err(SsbhError::OffsetTooNarrow)));
}

#[test]
fn read_relptr_truncated() {
    let bytes = vec![0x09, 0, 0];
    let result = RelPtr64::<u8>::read_at(&bytes, 0);
    assert!(matches!(result, Err(SsbhError::Truncated)));
}
