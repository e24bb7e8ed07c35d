//! Types dealing with the data of a state

use vstd::prelude::*;

use core::borrow::{Borrow, BorrowMut};
use core::cmp::Ordering;

use crate::text::{decimal_digits, push_decimal_digits};

verus! {

/// Placeholder for state data whose content is irrelevant
///
/// This type can be "read" from any state regardless of the size of the state data. It doesn't contain the actual data
/// but just their size, which can be obtained via the [`OpaqueData::size`] method.
#[derive(Clone, Copy, Debug, PartialEq, Eq, Structural, Hash, PartialOrd, Ord)]
pub struct OpaqueData {
    size: usize,
}

impl View for OpaqueData {
    type V = usize;

    /// The size in bytes of the state data
    closed spec fn view(&self) -> usize {
        self.size
    }
}

impl OpaqueData {
    /// Creates a new [`OpaqueData`] standing for state data of the given size
    pub fn new(size: usize) -> (r: Self)
        ensures
            r@ == size,
    {
        Self { size }
    }

    /// Returns the size in bytes of this [`OpaqueData`]
    pub fn size(self) -> (r: usize)
        ensures
            r == self@,
    {
        self.size
    }
}

/// The change stamp of a state
///
/// This is `0` when the state is created and is increased by `1` on every update to the state.
#[derive(Clone, Copy, Debug, PartialEq, Eq, Structural, Hash, Ord)]
pub struct ChangeStamp(u32);

impl View for ChangeStamp {
    type V = u32;

    /// The value of the change stamp
    closed spec fn view(&self) -> u32 {
        self.0
    }
}

impl ChangeStamp {
    /// Creates a new [`ChangeStamp`] with the given value
    pub fn new(value: u32) -> (r: Self)
        ensures
            r@ == value,
    {
        Self(value)
    }

    /// Returns the initial change stamp of every state, which is `0`
    pub fn initial() -> (r: Self)
        ensures
            r@ == 0,
    {
        Self(0)
    }

    /// Returns the inner value
    pub fn value(self) -> (r: u32)
        ensures
            r == self@,
    {
        self.0
    }

    /// Renders the value in decimal, e.g. `42`
    pub fn to_string(&self) -> (r: String)
        ensures
            r@ == decimal_digits(self@ as nat),
    {
        let mut out = String::new();
        push_decimal_digits(&mut out, self.0 as u64);
        assert(out@ =~= decimal_digits(self@ as nat));
        out
    }
}

impl Default for ChangeStamp {
    /// Returns the initial change stamp, `0`
    fn default() -> (r: Self)
        ensures
            r@ == 0,
    {
        Self::initial()
    }
}

/// The order of change stamps by their values
pub open spec fn change_stamp_order(a: ChangeStamp, b: ChangeStamp) -> Option<Ordering> {
    if a@ < b@ {
        Some(Ordering::Less)
    } else if a@ == b@ {
        Some(Ordering::Equal)
    } else {
        Some(Ordering::Greater)
    }
}

impl PartialOrd for ChangeStamp {
    fn partial_cmp(&self, other: &ChangeStamp) -> (r: Option<Ordering>) {
        if self.0 < other.0 {
            Some(Ordering::Less)
        } else if self.0 == other.0 {
            Some(Ordering::Equal)
        } else {
            Some(Ordering::Greater)
        }
    }
}

impl vstd::std_specs::cmp::PartialOrdSpecImpl for ChangeStamp {
    open spec fn obeys_partial_cmp_spec() -> bool {
        true
    }

    /// Change stamps are ordered by their values
    open spec fn partial_cmp_spec(&self, other: &ChangeStamp) -> Option<Ordering> {
        change_stamp_order(*self, *other)
    }
}

impl PartialEq<u32> for ChangeStamp {
    fn eq(&self, other: &u32) -> (r: bool) {
        self.0 == *other
    }
}

impl vstd::std_specs::cmp::PartialEqSpecImpl<u32> for ChangeStamp {
    open spec fn obeys_eq_spec() -> bool {
        true
    }

    /// A change stamp equals a value when it has that value
    open spec fn eq_spec(&self, other: &u32) -> bool {
        self@ == *other
    }
}

impl AsRef<u32> for ChangeStamp {
    fn as_ref(&self) -> (r: &u32)
        ensures
            *r == self@,
    {
        &self.0
    }
}

impl AsMut<u32> for ChangeStamp {
    fn as_mut(&mut self) -> (r: &mut u32)
        ensures
            *r == old(self)@,
            final(self)@ == *final(r),
    {
        &mut self.0
    }
}

impl Borrow<u32> for ChangeStamp {
    fn borrow(&self) -> &u32 {
        &self.0
    }
}

impl BorrowMut<u32> for ChangeStamp {
    fn borrow_mut(&mut self) -> &mut u32 {
        &mut self.0
    }
}

/// A change stamp is determined by its value
pub proof fn lemma_change_stamp_view_identifies(a: ChangeStamp, b: ChangeStamp)
    ensures
        a@ == b@ <==> a == b,
{
}

impl vstd::std_specs::convert::FromSpecImpl<u32> for ChangeStamp {
    open spec fn obeys_from_spec() -> bool {
        true
    }

    closed spec fn from_spec(value: u32) -> Self {
        ChangeStamp(value)
    }
}

impl From<u32> for ChangeStamp {
    fn from(value: u32) -> (r: Self)
        ensures
            r@ == value,
    {
        Self(value)
    }
}

impl vstd::std_specs::convert::FromSpecImpl<ChangeStamp> for u32 {
    open spec fn obeys_from_spec() -> bool {
        true
    }

    open spec fn from_spec(change_stamp: ChangeStamp) -> Self {
        change_stamp@
    }
}

impl From<ChangeStamp> for u32 {
    fn from(change_stamp: ChangeStamp) -> (r: Self) {
        change_stamp.0
    }
}

/// Converting a value into a change stamp keeps the value
pub proof fn lemma_change_stamp_from_u32(value: u32)
    ensures
        <ChangeStamp as vstd::std_specs::convert::FromSpec<u32>>::from_spec(value)@ == value,
{
}

/// State data of type `T` together with a change stamp
#[derive(Clone, Copy, Debug, Default, PartialEq, Eq, Hash)]
pub struct StampedData<T> {
    data: T,
    change_stamp: ChangeStamp,
}

impl<T> View for StampedData<T> {
    type V = (T, u32);

    /// The data and the value of the change stamp
    closed spec fn view(&self) -> (T, u32) {
        (self.data, self.change_stamp@)
    }
}

impl<T> StampedData<T> {
    /// Creates a new [`StampedData`] from the given data and change stamp
    pub fn from_data_change_stamp<C: Into<ChangeStamp>>(data: T, change_stamp: C) -> (r: Self)
        ensures
            r@.0 == data,
            <C as vstd::std_specs::convert::IntoSpec<ChangeStamp>>::obeys_into_spec() ==> r@.1
                == <C as vstd::std_specs::convert::IntoSpec<ChangeStamp>>::into_spec(change_stamp)@,
    {
        Self { data, change_stamp: change_stamp.into() }
    }

    /// Moves the contained data and change stamp out of this [`StampedData`]
    pub fn into_data_change_stamp(self) -> (r: (T, ChangeStamp))
        ensures
            r.0 == self@.0,
            r.1@ == self@.1,
    {
        (self.data, self.change_stamp)
    }

    /// Moves the contained data out of this [`StampedData`], discarding the change stamp
    pub fn into_data(self) -> (r: T)
        ensures
            r == self@.0,
    {
        self.data
    }

    /// Returns a reference to the data contained in this [`StampedData`]
    pub fn data(&self) -> (r: &T)
        ensures
            *r == self@.0,
    {
        &self.data
    }

    /// Returns the change stamp contained in this [`StampedData`]
    pub fn change_stamp(&self) -> (r: ChangeStamp)
        ensures
            r@ == self@.1,
    {
        self.change_stamp
    }

    /// Returns a new [`StampedData`] obtained by applying a given closure to the contained data
    pub fn map<U, F>(self, op: F) -> (r: StampedData<U>)
        where
            F: FnOnce(T) -> U,
        requires
            op.requires((self@.0,)),
        ensures
            op.ensures((self@.0,), r@.0),
            r@.1 == self@.1,
    {
        StampedData { data: op(self.data), change_stamp: self.change_stamp }
    }
}

/// Stamped data are determined by their data and the value of their change stamp
pub proof fn lemma_stamped_data_view_identifies<T>(a: StampedData<T>, b: StampedData<T>)
    ensures
        a@ == b@ <==> a == b,
{
    if a@ == b@ {
        lemma_change_stamp_view_identifies(a.change_stamp, b.change_stamp);
    }
}

impl<T> vstd::std_specs::convert::FromSpecImpl<(T, ChangeStamp)> for StampedData<T> {
    open spec fn obeys_from_spec() -> bool {
        true
    }

    closed spec fn from_spec(parts: (T, ChangeStamp)) -> Self {
        StampedData { data: parts.0, change_stamp: parts.1 }
    }
}

impl<T> From<(T, ChangeStamp)> for StampedData<T> {
    fn from(parts: (T, ChangeStamp)) -> (r: Self)
        ensures
            r@ == (parts.0, parts.1@),
    {
        let (data, change_stamp) = parts;
        StampedData { data, change_stamp }
    }
}

impl<T> vstd::std_specs::convert::FromSpecImpl<StampedData<T>> for (T, ChangeStamp) {
    open spec fn obeys_from_spec() -> bool {
        true
    }

    closed spec fn from_spec(stamped: StampedData<T>) -> Self {
        (stamped.data, stamped.change_stamp)
    }
}

impl<T> From<StampedData<T>> for (T, ChangeStamp) {
    fn from(stamped: StampedData<T>) -> (r: Self)
        ensures
            r.0 == stamped@.0,
            r.1@ == stamped@.1,
    {
        stamped.into_data_change_stamp()
    }
}

/// Converting a data and change stamp pair into stamped data and back gives back the pair, and the other way round
pub proof fn lemma_stamped_data_conversions_round_trip<T>(parts: (T, ChangeStamp), stamped: StampedData<T>)
    ensures
        <StampedData<T> as vstd::std_specs::convert::FromSpec<(T, ChangeStamp)>>::from_spec(parts)@ == (
            parts.0,
            parts.1@,
        ),
        <(T, ChangeStamp) as vstd::std_specs::convert::FromSpec<StampedData<T>>>::from_spec(stamped).0
            == stamped@.0,
        <(T, ChangeStamp) as vstd::std_specs::convert::FromSpec<StampedData<T>>>::from_spec(stamped).1@
            == stamped@.1,
        <StampedData<T> as vstd::std_specs::convert::FromSpec<(T, ChangeStamp)>>::from_spec(
            <(T, ChangeStamp) as vstd::std_specs::convert::FromSpec<StampedData<T>>>::from_spec(stamped),
        ) == stamped,
        <(T, ChangeStamp) as vstd::std_specs::convert::FromSpec<StampedData<T>>>::from_spec(
            <StampedData<T> as vstd::std_specs::convert::FromSpec<(T, ChangeStamp)>>::from_spec(parts),
        ) == parts,
{
}

} // verus!
