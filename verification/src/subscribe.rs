//! Subscribing to changes of state data

use vstd::prelude::*;

use core::marker::PhantomData;

use crate::bytes::CheckedBitPattern;
use crate::data::{ChangeStamp, StampedData};
use crate::read::{
    boxed_from_buffer, slice_from_buffer, slice_read, value_from_buffer, value_read, vec_result_view, WnfReadError,
};

verus! {

/// The change stamp of a state that a listener has last seen when subscribing
///
/// A listener is notified about the updates whose change stamp is strictly larger than the one it has last seen, and
/// never about updates that happened before it subscribed.
#[derive(Clone, Copy, Debug, PartialEq, Eq, Structural, Hash)]
pub enum SeenChangeStamp {
    /// The listener has seen no change stamp: it is notified about the current data, if any data have been written,
    /// and about every future update
    Unseen,
    /// The listener has seen the current change stamp: it is notified about every future update
    Current,
    /// The listener has seen the given change stamp
    Value(ChangeStamp),
}

impl Default for SeenChangeStamp {
    fn default() -> (r: Self)
        ensures
            r == SeenChangeStamp::Unseen,
    {
        SeenChangeStamp::Unseen
    }
}

/// The value of the change stamp to subscribe after, given what the listener has seen and the current change stamp
/// of the state
pub open spec fn subscription_change_stamp(seen: SeenChangeStamp, current: ChangeStamp) -> u32 {
    match seen {
        SeenChangeStamp::Unseen => 0,
        SeenChangeStamp::Current => current@,
        SeenChangeStamp::Value(value) => value@,
    }
}

impl SeenChangeStamp {
    /// Returns whether subscribing needs the current change stamp of the state, which then has to be queried first
    pub fn needs_current(self) -> (r: bool)
        ensures
            r == (self == SeenChangeStamp::Current),
    {
        match self {
            SeenChangeStamp::Current => true,
            _ => false,
        }
    }

    /// Returns the change stamp to subscribe after, given the current change stamp of the state
    ///
    /// The current change stamp only matters for [`SeenChangeStamp::Current`].
    pub fn after_change_stamp(self, current: ChangeStamp) -> (r: ChangeStamp)
        ensures
            r@ == subscription_change_stamp(self, current),
    {
        match self {
            SeenChangeStamp::Unseen => ChangeStamp::initial(),
            SeenChangeStamp::Current => current,
            SeenChangeStamp::Value(value) => value,
        }
    }
}

/// Access to the data of a change to a state, as received by a listener
///
/// The data are read as values of type `T` only when asked for, so a listener can also cast the accessor to another
/// type or just look at the change stamp.
pub struct DataAccessor<'a, T> {
    bytes: &'a [u8],
    change_stamp: ChangeStamp,
    /// Ties the accessor to `T` without owning a `T`, keeping it `Send` and `Sync` whatever `T` is
    _marker: PhantomData<Ghost<T>>,
}

impl<'a, T> View for DataAccessor<'a, T> {
    type V = (Seq<u8>, u32);

    /// The bytes of the data and the value of their change stamp
    closed spec fn view(&self) -> (Seq<u8>, u32) {
        (self.bytes@, self.change_stamp@)
    }
}

impl<'a, T> DataAccessor<'a, T> {
    /// Creates an accessor to the given bytes of the data of a change with the given change stamp
    pub fn new(bytes: &'a [u8], change_stamp: ChangeStamp) -> (r: Self)
        ensures
            r@ == (bytes@, change_stamp@),
    {
        DataAccessor { bytes, change_stamp, _marker: PhantomData }
    }

    /// Casts this accessor to one reading the same data as values of type `U`
    pub fn cast<U>(self) -> (r: DataAccessor<'a, U>)
        ensures
            r@ == self@,
    {
        DataAccessor { bytes: self.bytes, change_stamp: self.change_stamp, _marker: PhantomData }
    }

    /// Returns the change stamp of the data
    pub fn change_stamp(&self) -> (r: ChangeStamp)
        ensures
            r@ == self@.1,
    {
        self.change_stamp
    }
}

impl<'a, T: CheckedBitPattern> DataAccessor<'a, T> {
    /// Reads the data as a `T`
    pub fn get(&self) -> (r: Result<T, WnfReadError>)
        ensures
            r == value_read::<T>(self@.0),
    {
        value_from_buffer::<T>(self.bytes)
    }

    /// Reads the data as a `T`, together with their change stamp
    pub fn query(&self) -> (r: Result<StampedData<T>, WnfReadError>)
        ensures
            match value_read::<T>(self@.0) {
                Ok(v) => r matches Ok(d) && d@ == (v, self@.1),
                Err(e) => r == Err::<StampedData<T>, WnfReadError>(e),
            },
    {
        match value_from_buffer::<T>(self.bytes) {
            Ok(v) => {
                proof {
                    crate::data::lemma_change_stamp_from_u32(self.change_stamp@);
                }
                Ok(StampedData::from_data_change_stamp(v, self.change_stamp.value()))
            },
            Err(e) => Err(e),
        }
    }

    /// Reads the data as a boxed `T`
    pub fn get_boxed(&self) -> (r: Result<Box<T>, WnfReadError>)
        ensures
            match value_read::<T>(self@.0) {
                Ok(v) => r matches Ok(b) && *b == v,
                Err(e) => r == Err::<Box<T>, WnfReadError>(e),
            },
    {
        boxed_from_buffer::<T>(self.bytes)
    }

    /// Reads the data as a slice of `T`
    pub fn get_slice(&self) -> (r: Result<Vec<T>, WnfReadError>)
        ensures
            vec_result_view(r) == slice_read::<T>(self@.0),
    {
        slice_from_buffer::<T>(self.bytes)
    }

    /// Reads the data as a slice of `T`, together with their change stamp
    pub fn query_slice(&self) -> (r: Result<StampedData<Vec<T>>, WnfReadError>)
        ensures
            match slice_read::<T>(self@.0) {
                Ok(s) => r matches Ok(d) && d@.0@ == s && d@.1 == self@.1,
                Err(e) => r == Err::<StampedData<Vec<T>>, WnfReadError>(e),
            },
    {
        match slice_from_buffer::<T>(self.bytes) {
            Ok(v) => {
                proof {
                    crate::data::lemma_change_stamp_from_u32(self.change_stamp@);
                }
                Ok(StampedData::from_data_change_stamp(v, self.change_stamp.value()))
            },
            Err(e) => Err(e),
        }
    }
}

} // verus!
