use std::marker::PhantomData;
use std::rc::Rc;

use wnf::error::WnfUnsubscribeError;
use wnf::predicate::{wait_changed, wait_initial, ChangedPredicate, Predicate, PredicateStage, WaitChange, WaitStart};
use wnf::read::WnfReadError;
use wnf::subscribe::{DataAccessor, SeenChangeStamp};
use wnf::subscription::{ListenerSlot, WnfSubscriptionHandle};
use wnf::{ChangeStamp, WnfChangeStamp};

#[test]
fn unsubscribe_success_releases_handle() {
    let handle = WnfSubscriptionHandle::new(Box::new(String::from("context")), 3);
    assert_eq!(handle.subscription(), Some(3));
    assert!(handle.unsubscribe(0).is_ok());
}

#[test]
fn unsubscribe_failure_hands_back_handle() {
    let handle = WnfSubscriptionHandle::new(Box::new(5u8), 3);
    let (err, handle) = handle.unsubscribe(-1073741823).unwrap_err();
    assert_eq!(err, WnfUnsubscribeError::Windows(-1073741823));
    assert_eq!(handle.subscription(), Some(3));
    assert_eq!(handle.forget().map(|context| *context), Some(5));
}

#[test]
fn seen_change_stamps() {
    let current = ChangeStamp::new(17);
    assert_eq!(SeenChangeStamp::default(), SeenChangeStamp::Unseen);
    assert_eq!(SeenChangeStamp::Unseen.after_change_stamp(current), ChangeStamp::initial());
    assert_eq!(SeenChangeStamp::Current.after_change_stamp(current), current);
    assert_eq!(SeenChangeStamp::Value(ChangeStamp::new(3)).after_change_stamp(current), ChangeStamp::new(3));
    assert!(SeenChangeStamp::Current.needs_current());
    assert!(!SeenChangeStamp::Unseen.needs_current());
}

struct AtLeast(u32);

impl Predicate<u32> for AtLeast {
    fn check(&mut self, data: &u32, _: PredicateStage) -> bool {
        *data >= self.0
    }
}

#[test]
fn waiting_for_a_predicate() {
    let mut predicate = AtLeast(10);
    assert!(matches!(wait_initial(&mut predicate, 12, ChangeStamp::new(1)), WaitStart::Ready(12)));
    assert!(matches!(
        wait_initial(&mut predicate, 3, ChangeStamp::new(1)),
        WaitStart::Subscribe(SeenChangeStamp::Value(stamp)) if stamp == ChangeStamp::new(1)
    ));
    assert!(matches!(wait_changed::<u32, (), _>(&mut predicate, Ok(4)), WaitChange::KeepWaiting));
    assert!(matches!(wait_changed::<u32, (), _>(&mut predicate, Ok(10)), WaitChange::Ready(Ok(10))));
    assert!(matches!(wait_changed::<u32, &str, _>(&mut predicate, Err("read")), WaitChange::Ready(Err("read"))));
}

#[test]
fn waiting_for_a_change() {
    let mut predicate = ChangedPredicate;
    assert!(!Predicate::<u8>::check(&mut predicate, &0, PredicateStage::Initial));
    assert!(Predicate::<u8>::check(&mut predicate, &0, PredicateStage::Changed));
    assert!(matches!(wait_initial(&mut predicate, 1u8, ChangeStamp::new(2)), WaitStart::Subscribe(_)));
    assert!(matches!(wait_changed::<u8, (), _>(&mut predicate, Ok(1)), WaitChange::Ready(Ok(1))));
}

#[test]
fn closures_are_predicates() {
    let mut at_least_ten = |data: &u32| *data >= 10;
    assert!(matches!(wait_initial(&mut at_least_ten, 11, ChangeStamp::new(4)), WaitStart::Ready(11)));
    assert!(matches!(wait_changed::<u32, (), _>(&mut at_least_ten, Ok(9)), WaitChange::KeepWaiting));
    assert!(Predicate::check(&mut at_least_ten, &10, PredicateStage::Changed));
}

#[test]
fn data_accessors_read_the_data_of_a_change() {
    let bytes = [0x34, 0x12, 0x78, 0x56];
    let accessor: DataAccessor<u16> = DataAccessor::new(&bytes, ChangeStamp::new(9));
    assert_eq!(accessor.change_stamp(), ChangeStamp::new(9));
    assert_eq!(accessor.get_slice(), Ok(vec![0x1234, 0x5678]));
    let stamped = accessor.query_slice().unwrap();
    assert_eq!(stamped.data(), &vec![0x1234, 0x5678]);
    assert_eq!(stamped.change_stamp(), ChangeStamp::new(9));
    assert_eq!(accessor.get(), Err(WnfReadError::WrongSize { expected: 2, actual: 4 }));

    let whole: DataAccessor<u32> = DataAccessor::<u16>::new(&bytes, ChangeStamp::new(9)).cast();
    assert_eq!(whole.get(), Ok(0x5678_1234));
    assert_eq!(*whole.get_boxed().unwrap(), 0x5678_1234);
    let stamped = whole.query().unwrap();
    assert_eq!(*stamped.data(), 0x5678_1234);
    assert_eq!(stamped.change_stamp().value(), 9);
}

/// Tells at run time whether a type is `Send` and whether it is `Sync`, picking the method by the bounds that hold
struct Probe<X>(PhantomData<X>);

trait SendProbe {
    fn is_send(&self) -> bool {
        true
    }
}

impl<X: Send> SendProbe for Probe<X> {}

trait NotSendProbe {
    fn is_send(&self) -> bool {
        false
    }
}

impl<X> NotSendProbe for &Probe<X> {}

trait SyncProbe {
    fn is_sync(&self) -> bool {
        true
    }
}

impl<X: Sync> SyncProbe for Probe<X> {}

trait NotSyncProbe {
    fn is_sync(&self) -> bool {
        false
    }
}

impl<X> NotSyncProbe for &Probe<X> {}

fn assert_send_and_sync<X: Send + Sync>() {}

#[test]
fn data_accessor_is_send_and_sync_regardless_of_data_type() {
    type NeitherSendNorSync = Rc<()>;
    assert!(!(&Probe::<NeitherSendNorSync>(PhantomData)).is_send());
    assert!(!(&Probe::<NeitherSendNorSync>(PhantomData)).is_sync());

    assert_send_and_sync::<DataAccessor<'static, NeitherSendNorSync>>();
    assert!((&Probe::<DataAccessor<'static, NeitherSendNorSync>>(PhantomData)).is_send());
    assert!((&Probe::<DataAccessor<'static, NeitherSendNorSync>>(PhantomData)).is_sync());
}

#[test]
fn listener_slots_deliver_until_silenced() {
    let mut seen: Vec<(Option<u16>, u32)> = Vec::new();
    {
        let mut slot = ListenerSlot::new(|data: Option<u16>, stamp: WnfChangeStamp| seen.push((data, stamp.value())));
        assert!(slot.is_active());
        slot.deliver_value::<u16, _>(&[2, 0], WnfChangeStamp::new(1));
        slot.deliver_value::<u16, _>(&[2], WnfChangeStamp::new(2));
        slot.silence();
        assert!(!slot.is_active());
        slot.deliver_value::<u16, _>(&[3, 0], WnfChangeStamp::new(3));
    }
    assert_eq!(seen, vec![(Some(2), 1), (None, 2)]);

    let mut slices: Vec<Option<Vec<u8>>> = Vec::new();
    {
        let mut slot = ListenerSlot::new(|data: Option<Vec<u8>>| slices.push(data));
        slot.deliver_slice::<u8, _>(&[1, 2, 3], WnfChangeStamp::new(1));
    }
    assert_eq!(slices, vec![Some(vec![1, 2, 3])]);

    let mut boxed: Vec<Option<u32>> = Vec::new();
    {
        let mut slot = ListenerSlot::new(|data: Option<Box<u32>>| boxed.push(data.map(|b| *b)));
        slot.deliver_boxed::<u32, _>(&[7, 0, 0, 0], WnfChangeStamp::new(1));
    }
    assert_eq!(boxed, vec![Some(7)]);
}
