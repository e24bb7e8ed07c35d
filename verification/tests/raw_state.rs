use std::convert::Infallible;

use wnf::error::{WnfApplyError, WnfInfoError, WnfQueryError, WnfSubscribeError, WnfTransformError, WnfUpdateError};
use wnf::raw_state::{
    replace_update_result, ReplaceStep, apply_update_result, notification_boxed, notification_slice, notification_value, notify_boxed, notify_slice, notify_value, set_result, update_result,
    ApplyStep, CreateReply, InfoReply, NameInfoClass, QueryReply, QueryStep, RawWnfState, SubscribeReply,
    STATUS_BUFFER_TOO_SMALL, STATUS_UNSUCCESSFUL,
};
use wnf::{StateName, TypeId, WnfChangeStamp, GUID};

const STATE_NAME: u64 = 0x0D83_063E_A3BE_5075;

fn state<T>() -> RawWnfState<T> {
    RawWnfState::from_state_name(StateName::from_opaque_value(STATE_NAME))
}

fn reply(status: i32, size: u32, change_stamp: u32, bytes: &[u8]) -> QueryReply {
    QueryReply { status, size, change_stamp, bytes: bytes.to_vec() }
}

#[test]
fn state_name_is_kept() {
    let raw: RawWnfState<u32> = state();
    assert_eq!(raw.state_name().opaque_value(), STATE_NAME);
    assert_eq!(raw.clone().cast::<u8>().state_name().opaque_value(), STATE_NAME);
    assert_eq!(raw.delete(), STATE_NAME);
}

#[test]
fn info_requests_and_results() {
    let raw: RawWnfState<u32> = state();
    let request = raw.info_request(NameInfoClass::SubscribersPresent);
    assert_eq!(request.state_name, STATE_NAME);
    assert_eq!(request.name_info_class, 1);
    assert_eq!(raw.info_request(NameInfoClass::StateNameExist).name_info_class, 0);
    assert_eq!(raw.info_request(NameInfoClass::IsQuiescent).name_info_class, 2);

    assert_eq!(raw.name_exists(InfoReply { status: 0, value: 1 }), Ok(true));
    assert_eq!(raw.subscribers_present(InfoReply { status: 0, value: 0 }), Ok(false));
    assert_eq!(
        raw.is_quiescent(InfoReply { status: STATUS_UNSUCCESSFUL, value: 7 }),
        Err(WnfInfoError::Windows(STATUS_UNSUCCESSFUL))
    );
}

#[test]
fn query_value_success() {
    let raw: RawWnfState<u32> = state();
    let result = raw.query(reply(0, 4, 5, &[0x78, 0x56, 0x34, 0x12])).unwrap();
    assert_eq!(*result.data(), 0x1234_5678);
    assert_eq!(result.change_stamp().value(), 5);
    assert_eq!(raw.get(reply(0, 4, 5, &[0x78, 0x56, 0x34, 0x12])), Ok(0x1234_5678));
    assert_eq!(*raw.get_boxed(reply(0, 4, 5, &[1, 0, 0, 0])).unwrap(), 1);
    let boxed = raw.query_boxed(reply(0, 4, 9, &[2, 0, 0, 0])).unwrap();
    assert_eq!(**boxed.data(), 2);
    assert_eq!(boxed.change_stamp().value(), 9);
}

#[test]
fn query_value_errors() {
    let raw: RawWnfState<u32> = state();
    assert_eq!(raw.get(reply(0, 2, 5, &[1, 2])), Err(WnfQueryError::WrongSize { expected: 4, actual: 2 }));
    assert_eq!(raw.get(reply(STATUS_UNSUCCESSFUL, 0, 0, &[])), Err(WnfQueryError::Windows(STATUS_UNSUCCESSFUL)));
    // data larger than the buffer: the query succeeds as far as the call is concerned, but has the wrong size
    assert_eq!(
        raw.get(reply(STATUS_BUFFER_TOO_SMALL, 8, 5, &[1, 2, 3, 4])),
        Err(WnfQueryError::WrongSize { expected: 4, actual: 8 })
    );
    // a buffer that is too small for data no larger than it is a failure
    assert_eq!(
        raw.get(reply(STATUS_BUFFER_TOO_SMALL, 4, 5, &[])),
        Err(WnfQueryError::Windows(STATUS_BUFFER_TOO_SMALL))
    );
    let flag: RawWnfState<bool> = state();
    assert_eq!(flag.get(reply(0, 1, 5, &[2])), Err(WnfQueryError::InvalidBitPattern));
}

#[test]
fn query_slice_grows_then_finishes() {
    let raw: RawWnfState<u16> = state();
    let bytes = [1, 0, 2, 0, 3, 0];

    match raw.query_slice(0, reply(STATUS_BUFFER_TOO_SMALL, 6, 3, &[])) {
        QueryStep::Grow(capacity) => assert_eq!(capacity, 6),
        _ => panic!("expected to grow"),
    }
    match raw.query_slice(6, reply(0, 6, 3, &bytes)) {
        QueryStep::Done(Ok(data)) => {
            assert_eq!(*data.data(), vec![1, 2, 3]);
            assert_eq!(data.change_stamp().value(), 3);
        },
        _ => panic!("expected data"),
    }
    match raw.get_slice(0, reply(0, 0, 3, &[])) {
        QueryStep::Done(Ok(data)) => assert!(data.is_empty()),
        _ => panic!("expected empty data"),
    }
    match raw.get_slice(8, reply(0, 3, 3, &[1, 2, 3])) {
        QueryStep::Done(Err(err)) => {
            assert_eq!(err, WnfQueryError::WrongSizeMultiple { expected_modulus: 2, actual: 3 })
        },
        _ => panic!("expected an error"),
    }
}

#[test]
fn set_and_update_requests() {
    let raw: RawWnfState<u32> = state();
    let request = raw.set(&0x0102_0304);
    assert_eq!(request.state_name, STATE_NAME);
    assert_eq!(request.data, vec![4, 3, 2, 1]);
    assert_eq!((request.matching_change_stamp, request.check_stamp), (0, 0));

    let request = raw.update(&7, WnfChangeStamp::new(12));
    assert_eq!(request.data, vec![7, 0, 0, 0]);
    assert_eq!((request.matching_change_stamp, request.check_stamp), (12, 1));

    let request = raw.set_slice(&[1, 2]);
    assert_eq!(request.data, vec![1, 0, 0, 0, 2, 0, 0, 0]);
    assert_eq!(request.check_stamp, 0);

    let request = raw.update_slice(&[], WnfChangeStamp::new(3));
    assert!(request.data.is_empty());
    assert_eq!((request.matching_change_stamp, request.check_stamp), (3, 1));
}

#[test]
fn update_results() {
    assert_eq!(set_result(0), Ok(()));
    assert_eq!(set_result(STATUS_UNSUCCESSFUL), Err(WnfUpdateError::Windows(STATUS_UNSUCCESSFUL)));
    assert_eq!(update_result(0), Ok(true));
    assert_eq!(update_result(STATUS_UNSUCCESSFUL), Ok(false));
    assert_eq!(update_result(STATUS_BUFFER_TOO_SMALL), Err(WnfUpdateError::Windows(STATUS_BUFFER_TOO_SMALL)));
}

#[test]
fn apply_updates_transformed_data() {
    let raw: RawWnfState<u32> = state();
    match raw.apply(reply(0, 4, 8, &[42, 0, 0, 0]), |value: u32| value + 1) {
        ApplyStep::Update(request, data) => {
            assert_eq!(data, 43);
            assert_eq!(request.data, vec![43, 0, 0, 0]);
            assert_eq!((request.matching_change_stamp, request.check_stamp), (8, 1));
            assert!(matches!(apply_update_result::<u32, Infallible>(0, data), ApplyStep::Finished(Ok(43))));
            assert_eq!(raw.get(QueryReply { status: 0, size: 4, change_stamp: 9, bytes: request.data }), Ok(43));
        },
        _ => panic!("expected an update"),
    }
    assert!(matches!(
        raw.apply(reply(0, 2, 8, &[1, 0]), |value: u32| value),
        ApplyStep::Finished(Err(WnfApplyError::Query(WnfQueryError::WrongSize { expected: 4, actual: 2 })))
    ));
    assert!(matches!(
        raw.apply_boxed(reply(0, 4, 8, &[5, 0, 0, 0]), |value: Box<u32>| *value * 2),
        ApplyStep::Update(request, 10) if request.data == vec![10, 0, 0, 0]
    ));
}

#[test]
fn try_apply_reports_transform_errors() {
    let raw: RawWnfState<u32> = state();
    let step: ApplyStep<u32, &str> = raw.try_apply(reply(0, 4, 8, &[1, 0, 0, 0]), |_: u32| Err("no"));
    assert!(matches!(step, ApplyStep::Finished(Err(WnfApplyError::Transform(WnfTransformError("no"))))));
    let step: ApplyStep<u32, &str> = raw.try_apply_boxed(reply(0, 4, 8, &[1, 0, 0, 0]), |b: Box<u32>| Ok(*b + 2));
    assert!(matches!(step, ApplyStep::Update(request, 3) if request.data == vec![3, 0, 0, 0]));
}

#[test]
fn apply_slice_steps() {
    let raw: RawWnfState<u16> = state();
    let step = raw.apply_slice(0, reply(STATUS_BUFFER_TOO_SMALL, 4, 2, &[]), |v: Vec<u16>| v);
    assert!(matches!(step, ApplyStep::Grow(4)));
    let step = raw.apply_slice(4, reply(0, 4, 2, &[1, 0, 2, 0]), |mut v: Vec<u16>| {
        v.push(3);
        v
    });
    assert!(
        matches!(step, ApplyStep::Update(request, data) if request.data == vec![1, 0, 2, 0, 3, 0] && data == vec![1, 2, 3])
    );
    let step: ApplyStep<Vec<u16>, ()> = raw.try_apply_slice(4, reply(0, 4, 2, &[1, 0, 2, 0]), |_: Vec<u16>| Err(()));
    assert!(matches!(step, ApplyStep::Finished(Err(WnfApplyError::Transform(WnfTransformError(()))))));
}

#[test]
fn apply_update_outcomes() {
    assert!(matches!(apply_update_result::<u32, Infallible>(0, 43), ApplyStep::Finished(Ok(43))));
    assert!(matches!(apply_update_result::<u32, Infallible>(STATUS_UNSUCCESSFUL, 43), ApplyStep::Retry));
    assert!(matches!(
        apply_update_result::<u32, Infallible>(STATUS_BUFFER_TOO_SMALL, 43),
        ApplyStep::Finished(Err(WnfApplyError::Update(WnfUpdateError::Windows(STATUS_BUFFER_TOO_SMALL))))
    ));
}

#[test]
fn subscribe_requests_and_results() {
    let raw: RawWnfState<u32> = state();
    let request = raw.subscribe_request(WnfChangeStamp::new(4));
    assert_eq!((request.state_name, request.after_change_stamp), (STATE_NAME, 4));

    let handle = raw.subscribe(Box::new("context"), SubscribeReply { status: 0, subscription: 77 }).unwrap();
    assert_eq!(handle.subscription(), Some(77));
    let err = raw.subscribe_boxed(Box::new(()), SubscribeReply { status: STATUS_UNSUCCESSFUL, subscription: 0 });
    assert!(matches!(err, Err(WnfSubscribeError::Windows(STATUS_UNSUCCESSFUL))));
    assert!(raw.subscribe_slice(Box::new(()), SubscribeReply { status: 1, subscription: 5 }).is_ok());
}

#[test]
fn notifications_are_decoded() {
    assert_eq!(notification_value::<u16>(&[0x34, 0x12]), Some(0x1234));
    assert_eq!(notification_value::<u16>(&[0x34]), None);
    assert_eq!(notification_boxed::<u16>(&[1, 0]).map(|b| *b), Some(1));
    assert_eq!(notification_slice::<u16>(&[1, 0, 2, 0]), Some(vec![1, 2]));
    assert_eq!(notification_slice::<u16>(&[1, 0, 2]), None);
    assert_eq!(notification_value::<bool>(&[5]), None);
}

#[test]
fn created_and_deleted() {
    let created: RawWnfState<u32> = RawWnfState::created(TypeId::none(), CreateReply { status: 0, state_name: 42 }).unwrap();
    assert_eq!(created.state_name().opaque_value(), 42);
    assert_eq!(created.type_id().guid(), None);
    let typed: RawWnfState<u32> =
        RawWnfState::created(TypeId::from_guid(GUID::from_u128(7)), CreateReply { status: 0, state_name: 43 }).unwrap();
    assert_eq!(typed.type_id().guid().map(|g| g.to_u128()), Some(7));
    assert!(RawWnfState::<u32>::created(TypeId::none(), CreateReply { status: STATUS_UNSUCCESSFUL, state_name: 0 }).is_err());
    assert!(RawWnfState::<u32>::deleted(0).is_ok());
    assert!(RawWnfState::<u32>::deleted(STATUS_UNSUCCESSFUL).is_err());
}

#[test]
fn temporary_state_creation_request() {
    let request = RawWnfState::<u32>::create_temporary().create_request();
    assert_eq!(request.name_lifetime, 3);
    assert_eq!(request.data_scope, 4);
    assert_eq!(request.persist_data, 0);
    assert_eq!(request.maximum_state_size, 0x1000);
    assert_eq!(request.type_id.guid(), None);
}

#[test]
fn replace_steps() {
    let raw: RawWnfState<u32> = state();
    let (request, previous) = raw.replace(reply(0, 4, 6, &[9, 0, 0, 0]), &10).unwrap();
    assert_eq!(previous, 9);
    assert_eq!(request.data, vec![10, 0, 0, 0]);
    assert_eq!((request.matching_change_stamp, request.check_stamp), (6, 1));
    let (_, previous) = raw.replace_boxed(reply(0, 4, 6, &[7, 0, 0, 0]), &10).unwrap();
    assert_eq!(*previous, 7);
    assert!(raw.replace(reply(STATUS_UNSUCCESSFUL, 0, 0, &[]), &1).is_err());

    assert!(matches!(replace_update_result(0, 5u32), ReplaceStep::Replaced(5)));
    assert!(matches!(replace_update_result(STATUS_UNSUCCESSFUL, 5u32), ReplaceStep::Retry));
    assert!(matches!(
        replace_update_result(STATUS_BUFFER_TOO_SMALL, 5u32),
        ReplaceStep::Failed(WnfUpdateError::Windows(STATUS_BUFFER_TOO_SMALL))
    ));
}

#[test]
fn written_values_are_read_back() {
    let raw: RawWnfState<u64> = state();
    let request = raw.set(&0x0102_0304_0506_0708);
    let size = request.data.len() as u32;
    assert_eq!(raw.get(QueryReply { status: 0, size, change_stamp: 1, bytes: request.data }), Ok(0x0102_0304_0506_0708));

    let slice: RawWnfState<u16> = state();
    let request = slice.set_slice(&[1, 2, 3]);
    let size = request.data.len();
    match slice.get_slice(size, QueryReply { status: 0, size: size as u32, change_stamp: 1, bytes: request.data }) {
        QueryStep::Done(Ok(values)) => assert_eq!(values, vec![1, 2, 3]),
        _ => panic!("expected the written values"),
    }
}

#[test]
fn written_signed_and_wide_values_are_read_back() {
    let signed: RawWnfState<i32> = state();
    let request = signed.set(&-2);
    assert_eq!(request.data, vec![0xfe, 0xff, 0xff, 0xff]);
    assert_eq!(signed.get(QueryReply { status: 0, size: 4, change_stamp: 1, bytes: request.data }), Ok(-2));

    let wide: RawWnfState<i128> = state();
    let value: i128 = -0x0102_0304_0506_0708_090a_0b0c_0d0e_0f10;
    let request = wide.set(&value);
    assert_eq!(request.data.len(), 16);
    assert_eq!(wide.get(QueryReply { status: 0, size: 16, change_stamp: 1, bytes: request.data }), Ok(value));

    let small: RawWnfState<i8> = state();
    let request = small.set(&-128);
    assert_eq!(request.data, vec![0x80]);
    assert_eq!(small.get(QueryReply { status: 0, size: 1, change_stamp: 1, bytes: request.data }), Ok(-128));
}

#[test]
fn requests_carry_the_type_id() {
    let guid = GUID::from_u128(0x1234_5678_9abc_def0_1122_3344_5566_7788);
    let raw: RawWnfState<u32> =
        RawWnfState::from_state_name_and_type_id(StateName::from_opaque_value(STATE_NAME), TypeId::from_guid(guid));
    let typed = |type_id: TypeId| type_id.guid().map(|g| g.to_u128());
    assert_eq!(typed(raw.query_request(4).type_id), Some(guid.to_u128()));
    assert_eq!(typed(raw.set(&1).type_id), Some(guid.to_u128()));
    assert_eq!(typed(raw.update_slice(&[1, 2], WnfChangeStamp::new(3)).type_id), Some(guid.to_u128()));
    assert_eq!(typed(raw.subscribe_request(WnfChangeStamp::new(3)).type_id), Some(guid.to_u128()));
    assert_eq!(typed(raw.cast::<u8>().query_request(1).type_id), Some(guid.to_u128()));
    assert_eq!(raw.query_request(4).state_name, STATE_NAME);

    let untyped: RawWnfState<u32> = state();
    assert_eq!(typed(untyped.query_request(4).type_id), None);
    assert_eq!(typed(untyped.set(&1).type_id), None);
}

#[test]
fn notifications_are_delivered_to_listeners() {
    let mut seen: Vec<(Option<u16>, u32)> = Vec::new();
    let mut listener = |data: Option<u16>, change_stamp: WnfChangeStamp| seen.push((data, change_stamp.value()));
    notify_value(&mut listener, &[0x34, 0x12], WnfChangeStamp::new(3));
    notify_value(&mut listener, &[0x34], WnfChangeStamp::new(4));
    assert_eq!(seen, vec![(Some(0x1234), 3), (None, 4)]);

    let mut boxed: Vec<Option<u16>> = Vec::new();
    let mut listener = |data: Option<Box<u16>>| boxed.push(data.map(|b| *b));
    notify_boxed(&mut listener, &[1, 0], WnfChangeStamp::new(1));
    assert_eq!(boxed, vec![Some(1)]);

    let mut slices: Vec<Option<Vec<u16>>> = Vec::new();
    let mut listener = |data: Option<Vec<u16>>| slices.push(data);
    notify_slice(&mut listener, &[1, 0, 2, 0], WnfChangeStamp::new(1));
    notify_slice(&mut listener, &[1, 0, 2], WnfChangeStamp::new(2));
    assert_eq!(slices, vec![Some(vec![1, 2]), None]);

    let mut calls = 0;
    let mut listener = || calls += 1;
    notify_value::<u8, _, _>(&mut listener, &[1], WnfChangeStamp::new(1));
    assert_eq!(calls, 1);
}
