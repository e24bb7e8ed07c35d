use wnf::callback::{WnfCallback, WnfStateChangeListener};
use wnf::read::value_from_buffer;
use wnf::error::{WnfInfoError, WnfQueryError, WnfUpdateError};
use wnf::wide_string::CWideString;
use wnf::{NoUninit, TypeId, WnfChangeStamp, GUID};

#[test]
fn wide_strings_are_null_terminated_utf16() {
    assert_eq!(CWideString::new("test").as_slice(), &[0x74, 0x65, 0x73, 0x74, 0][..]);
    assert_eq!(CWideString::new("D:(A;;GA;;;WD)").as_slice().len(), 15);
    assert_eq!(CWideString::new("\u{1F600}").as_slice(), &[0xD83D, 0xDE00, 0][..]);
    assert_eq!(CWideString::new("").as_slice(), &[0][..]);
}

#[test]
fn error_messages() {
    assert_eq!(
        WnfQueryError::WrongSize { expected: 4, actual: 2 }.to_string(),
        "failed to query WNF state data: data has wrong size (expected 4, got 2)"
    );
    assert_eq!(
        WnfQueryError::WrongSizeMultiple { expected_modulus: 8, actual: 4 }.to_string(),
        "failed to query WNF state data: data has wrong size (expected multiple of 8, got 4)"
    );
    assert_eq!(
        WnfQueryError::Windows(-1073741823).to_string(),
        "failed to query WNF state data: Windows error code 0xd0000001"
    );
    assert_eq!(
        WnfInfoError::Windows(-1073741772).to_string(),
        "failed to query WNF state information: Windows error code 0xd0000034"
    );
    assert_eq!(
        WnfUpdateError::Windows(-1073741789).to_string(),
        "failed to update WNF state data: Windows error code 0xd0000023"
    );
}

#[test]
fn guids_and_type_ids() {
    let guid = GUID::from_u128(0x0011_2233_4455_6677_8899_AABB_CCDD_EEFF);
    assert_eq!(guid.to_u128(), 0x0011_2233_4455_6677_8899_AABB_CCDD_EEFF);
    assert_eq!(guid.data1(), 0x0011_2233);
    assert_eq!(guid.data2(), 0x4455);
    assert_eq!(guid.data3(), 0x6677);
    assert_eq!(guid.data4(), [0x88, 0x99, 0xAA, 0xBB, 0xCC, 0xDD, 0xEE, 0xFF]);
    assert_eq!(GUID::from_values(0x0011_2233, 0x4455, 0x6677, guid.data4()), guid);
    assert_eq!(GUID::zeroed().to_u128(), 0);
    assert_eq!(u128::from(GUID::from(5u128)), 5);
    assert_eq!(TypeId::from_guid(guid).guid(), Some(guid));
    assert_eq!(TypeId::none().guid(), None);
}

#[test]
fn encoding_values() {
    assert_eq!(0x1234u16.to_bytes(), vec![0x34, 0x12]);
    assert_eq!((-2i32).to_bytes(), vec![0xFE, 0xFF, 0xFF, 0xFF]);
    assert_eq!(true.to_bytes(), vec![1]);
    assert_eq!('A'.to_bytes(), vec![0x41, 0, 0, 0]);
    assert_eq!(wnf::bytes::slice_to_bytes(&[1u16, 2u16]), vec![1, 0, 2, 0]);
}

#[test]
fn callbacks_take_the_arguments_they_ask_for() {
    let mut both = |data: u8, stamp: WnfChangeStamp| u32::from(data) + stamp.value();
    assert_eq!(WnfCallback::<u8, (u8, WnfChangeStamp), u32>::call(&mut both, 2, WnfChangeStamp::new(3)), 5);
    let mut data_only = |data: u8| data;
    assert_eq!(WnfCallback::<u8, (u8,), u8>::call(&mut data_only, 4, WnfChangeStamp::new(3)), 4);
    let mut nothing = || 9;
    assert_eq!(WnfCallback::<u8, (), i32>::call(&mut nothing, 4, WnfChangeStamp::new(3)), 9);

    let mut seen = Vec::new();
    let mut listener = |data: Option<u8>, stamp: WnfChangeStamp| seen.push((data, stamp.value()));
    WnfStateChangeListener::<u8, (Option<u8>, WnfChangeStamp)>::call(&mut listener, Some(1), WnfChangeStamp::new(2));
    WnfStateChangeListener::<u8, (Option<u8>, WnfChangeStamp)>::call(&mut listener, None, WnfChangeStamp::new(3));
    assert_eq!(seen, vec![(Some(1), 2), (None, 3)]);
}

#[test]
fn wide_integers_are_encoded_little_endian() {
    assert_eq!((-2i8).to_bytes(), vec![0xFE]);
    assert_eq!((-2i16).to_bytes(), vec![0xFE, 0xFF]);
    let big: u128 = 0x0011_2233_4455_6677_8899_AABB_CCDD_EEFF;
    let bytes = big.to_bytes();
    assert_eq!(bytes[0], 0xFF);
    assert_eq!(bytes[15], 0x00);
    assert_eq!(value_from_buffer::<u128>(&bytes), Ok(big));
    assert_eq!(value_from_buffer::<i128>(&(-5i128).to_bytes()), Ok(-5));
    assert_eq!(value_from_buffer::<i16>(&[0xFE, 0xFF]), Ok(-2));
    assert_eq!(value_from_buffer::<i8>(&[0x80]), Ok(-128));
    assert_eq!(value_from_buffer::<i64>(&(-7i64).to_bytes()), Ok(-7));
}

#[test]
fn guids_from_text() {
    let expected = GUID::from_u128(0x0011_2233_4455_6677_8899_AABB_CCDD_EEFF);
    assert_eq!(GUID::parse("00112233-4455-6677-8899-aabbccddeeff"), Some(expected));
    assert_eq!(GUID::parse("00112233-4455-6677-8899-AABBCCDDEEFF"), Some(expected));
    assert_eq!(GUID::from_text("00000000-0000-0000-0000-000000000001").to_u128(), 1);
    assert!(GUID::is_text("00112233-4455-6677-8899-aabbccddeeff"));
    assert!(!GUID::is_text("00112233-4455-6677-8899-aabbccddeef"));
    assert!(!GUID::is_text("00112233-4455-6677-8899_aabbccddeeff"));
    assert_eq!(GUID::parse("0011223g-4455-6677-8899-aabbccddeeff"), None);
    assert_eq!(GUID::parse(""), None);
}

#[test]
fn wide_string_ends_at_its_first_null() {
    let wide = CWideString::new("t\u{e9}st \u{1F600}");
    let units = wide.as_slice();
    let end = units.iter().position(|&unit| unit == 0).unwrap();
    assert_eq!(end, units.len() - 1);
    assert_eq!(String::from_utf16(&units[..end]).unwrap(), "t\u{e9}st \u{1F600}");
}

#[test]
fn type_id_from_guid_as_ptr() {
    let guid: GUID = GUID::from_u128(0x0011_2233_4455_6677_8899_AABB_CCDD_EEFF);

    let type_id: TypeId = guid.into();
    let stored = type_id.guid();

    assert!(stored.is_some());
    assert_eq!(stored.unwrap().to_u128(), guid.to_u128());
}

#[test]
fn type_id_none_as_ptr() {
    let type_id = TypeId::none();

    assert!(type_id.guid().is_none());
}

#[test]
fn as_pcwstr_returns_valid_pointer() {
    let c_wide_string = CWideString::new("test");
    let units = c_wide_string.as_slice();

    let len = units.iter().position(|&unit| unit == 0).unwrap();

    assert_eq!(String::from_utf16(&units[..len]).unwrap(), "test");
}
