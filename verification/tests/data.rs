use std::borrow::{Borrow, BorrowMut};

use wnf::{ChangeStamp, OpaqueData, StampedData, WnfChangeStamp, WnfStampedData};

#[test]
fn change_stamp_display() {
    assert_eq!(ChangeStamp::from(42).to_string(), "42");
}

#[test]
fn stamped_data_map() {
    assert_eq!(
        StampedData::from_data_change_stamp(42, 1).map(|x: i32| x.to_string()),
        StampedData::from_data_change_stamp(String::from("42"), 1)
    );
}

#[test]
fn change_stamp_initial_is_zero() {
    assert_eq!(ChangeStamp::initial().value(), 0);
    assert_eq!(ChangeStamp::new(7).value(), 7);
    assert_eq!(u32::from(ChangeStamp::from(9)), 9);
    assert_eq!(ChangeStamp::from(4_294_967_295).to_string(), "4294967295");
    assert_eq!(ChangeStamp::from(0).to_string(), "0");
}

#[test]
fn stamped_data_parts() {
    let stamped = StampedData::from_data_change_stamp(String::from("data"), ChangeStamp::new(3));
    assert_eq!(stamped.data(), "data");
    assert_eq!(stamped.change_stamp(), ChangeStamp::new(3));
    let (data, change_stamp) = stamped.clone().into_data_change_stamp();
    assert_eq!(data, "data");
    assert_eq!(change_stamp.value(), 3);
    assert_eq!(stamped.into_data(), "data");
}

#[test]
fn opaque_data_keeps_size() {
    assert_eq!(OpaqueData::new(12).size(), 12);
}

#[test]
fn wnf_stamped_data_parts() {
    let stamped = WnfStampedData::from_data_and_change_stamp(5u8, 8u32);
    assert_eq!(*stamped.data(), 5);
    assert_eq!(stamped.change_stamp(), WnfChangeStamp::from(8));
    assert_eq!(stamped.change_stamp().value(), 8);
    assert_eq!(stamped.into_data_change_stamp(), (5, WnfChangeStamp::new(8)));
    assert_eq!(WnfStampedData::from_data_and_change_stamp(6u8, 1u32).into_data(), 6);
}

#[test]
fn change_stamp_default_is_initial() {
    assert_eq!(ChangeStamp::default(), ChangeStamp::initial());
    assert_eq!(ChangeStamp::default().value(), 0);
}

#[test]
fn change_stamp_compares_with_its_value() {
    assert!(ChangeStamp::new(5) == 5);
    assert!(ChangeStamp::new(5) != 6);
    assert!(ChangeStamp::new(3) < ChangeStamp::new(4));
    assert!(ChangeStamp::new(4) <= ChangeStamp::new(4));
    assert!(ChangeStamp::new(9) > ChangeStamp::new(2));
    assert_eq!(ChangeStamp::new(1).partial_cmp(&ChangeStamp::new(1)), Some(std::cmp::Ordering::Equal));
}

#[test]
fn change_stamp_gives_access_to_its_value() {
    let mut stamp = ChangeStamp::new(10);
    assert_eq!(*stamp.as_ref(), 10);
    let borrowed: &u32 = stamp.borrow();
    assert_eq!(*borrowed, 10);
    *stamp.as_mut() = 11;
    assert_eq!(stamp.value(), 11);
    let borrowed_mut: &mut u32 = stamp.borrow_mut();
    *borrowed_mut += 1;
    assert_eq!(stamp, ChangeStamp::new(12));
}

#[test]
fn stamped_data_converts_from_and_into_pairs() {
    let stamped = StampedData::from((String::from("data"), ChangeStamp::new(4)));
    assert_eq!(stamped, StampedData::from_data_change_stamp(String::from("data"), 4));
    let (data, change_stamp): (String, ChangeStamp) = stamped.clone().into();
    assert_eq!(data, "data");
    assert_eq!(change_stamp, ChangeStamp::new(4));
    assert_eq!(StampedData::from(stamped.clone().into_data_change_stamp()), stamped);
}

#[test]
fn stamped_data_map_with_identity_is_unchanged() {
    let stamped = StampedData::from_data_change_stamp(7u8, 2);
    assert_eq!(stamped.map(|x| x), stamped);
}

#[test]
fn wnf_change_stamp_default_is_zero() {
    assert_eq!(WnfChangeStamp::default(), WnfChangeStamp::new(0));
}
