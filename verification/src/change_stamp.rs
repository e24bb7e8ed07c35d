//! Change stamps and stamped data as seen by the raw state API

use vstd::prelude::*;

verus! {

/// The change stamp of a state as seen by the raw state API
#[derive(Clone, Copy, Debug, PartialEq, Eq, Structural, Hash)]
pub struct WnfChangeStamp(u32);

impl Default for WnfChangeStamp {
    /// Returns the change stamp of a newly created state, `0`
    fn default() -> (r: Self)
        ensures
            r@ == 0,
    {
        Self(0)
    }
}

impl View for WnfChangeStamp {
    type V = u32;

    /// The value of the change stamp
    closed spec fn view(&self) -> u32 {
        self.0
    }
}

impl WnfChangeStamp {
    /// Creates a change stamp with the given value
    pub fn new(value: u32) -> (r: Self)
        ensures
            r@ == value,
    {
        Self(value)
    }

    /// Returns the value of this change stamp
    pub fn value(self) -> (r: u32)
        ensures
            r == self@,
    {
        self.0
    }
}

impl vstd::std_specs::convert::FromSpecImpl<u32> for WnfChangeStamp {
    open spec fn obeys_from_spec() -> bool {
        true
    }

    closed spec fn from_spec(value: u32) -> Self {
        WnfChangeStamp(value)
    }
}

impl From<u32> for WnfChangeStamp {
    fn from(value: u32) -> (r: Self)
        ensures
            r@ == value,
    {
        Self(value)
    }
}

impl vstd::std_specs::convert::FromSpecImpl<WnfChangeStamp> for u32 {
    open spec fn obeys_from_spec() -> bool {
        true
    }

    open spec fn from_spec(change_stamp: WnfChangeStamp) -> Self {
        change_stamp@
    }
}

impl From<WnfChangeStamp> for u32 {
    fn from(change_stamp: WnfChangeStamp) -> (r: Self) {
        change_stamp.0
    }
}

/// A change stamp is determined by its value
pub proof fn lemma_wnf_change_stamp_view_identifies(a: WnfChangeStamp, b: WnfChangeStamp)
    ensures
        a@ == b@ <==> a == b,
{
}

/// Converting a value into a change stamp keeps the value
pub proof fn lemma_wnf_change_stamp_from_u32(value: u32)
    ensures
        <WnfChangeStamp as vstd::std_specs::convert::FromSpec<u32>>::from_spec(value)@ == value,
{
}

/// State data of type `T` together with a change stamp, as seen by the raw state API
#[derive(Clone, Copy, Debug, PartialEq, Eq, Hash)]
pub struct WnfStampedData<T> {
    data: T,
    change_stamp: WnfChangeStamp,
}

impl<T> View for WnfStampedData<T> {
    type V = (T, u32);

    /// The data and the value of the change stamp
    closed spec fn view(&self) -> (T, u32) {
        (self.data, self.change_stamp@)
    }
}

impl<T> WnfStampedData<T> {
    /// Creates a new [`WnfStampedData`] from the given data and change stamp
    pub fn from_data_and_change_stamp<C: Into<WnfChangeStamp>>(data: T, change_stamp: C) -> (r: Self)
        ensures
            r@.0 == data,
            <C as vstd::std_specs::convert::IntoSpec<WnfChangeStamp>>::obeys_into_spec() ==> r@.1
                == <C as vstd::std_specs::convert::IntoSpec<WnfChangeStamp>>::into_spec(change_stamp)@,
    {
        Self { data, change_stamp: change_stamp.into() }
    }

    /// Returns a reference to the contained data
    pub fn data(&self) -> (r: &T)
        ensures
            *r == self@.0,
    {
        &self.data
    }

    /// Moves the contained data out, discarding the change stamp
    pub fn into_data(self) -> (r: T)
        ensures
            r == self@.0,
    {
        self.data
    }

    /// Returns the contained change stamp
    pub fn change_stamp(&self) -> (r: WnfChangeStamp)
        ensures
            r@ == self@.1,
    {
        self.change_stamp
    }

    /// Moves the contained data and change stamp out
    pub fn into_data_change_stamp(self) -> (r: (T, WnfChangeStamp))
        ensures
            r.0 == self@.0,
            r.1@ == self@.1,
    {
        (self.data, self.change_stamp)
    }
}

} // verus!
