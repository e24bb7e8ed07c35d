//! Operations on a state, as decisions around the calls into the Windows native API
//!
//! Every operation on a state consists of calls into the Windows native API and decisions about their results. The
//! calls themselves are made by the caller: an operation yields a request describing the call to make, and the reply
//! to that call is handed back to the operation, which decides on the result or on the next call to make.
//!
//! Querying a slice repeats the query with a larger buffer while the data do not fit into the buffer, and applying a
//! transformation repeats querying and updating while the data change between the two.

use vstd::prelude::*;

use core::marker::PhantomData;

use crate::bytes::{encode_all, slice_to_bytes, AnyBitPattern, CheckedBitPattern, NoUninit};
use crate::callback::WnfStateChangeListener;
use crate::change_stamp::{lemma_wnf_change_stamp_from_u32, WnfChangeStamp, WnfStampedData};
use crate::error::{
    query_error_of, WnfApplyError, WnfCreateError, WnfDeleteError, WnfInfoError, WnfQueryError, WnfSubscribeError,
    WnfTransformError, WnfUpdateError,
};
use crate::manage::{CreatableStateLifetime, StateCreation, UnspecifiedSecurityDescriptor};
use crate::read::{
    encoding_round_trips, lemma_slice_read_of_encoding, lemma_value_read_of_encoding, bits_size, slice_read, slice_read_step, slice_step_matches, value_from_buffer, value_read, FromReaderError,
    ReadOutput, SliceReadStep,
};
use crate::state_name::{DataScope, StateName};
use crate::subscription::WnfSubscriptionHandle;
use crate::type_id::TypeId;

verus! {

/// The `NTSTATUS` code telling that an operation failed without further detail
pub const STATUS_UNSUCCESSFUL: i32 = -1073741823;

/// The `NTSTATUS` code telling that a buffer is too small for the data
pub const STATUS_BUFFER_TOO_SMALL: i32 = -1073741789;

/// A class of information about a state name
#[derive(Clone, Copy, Debug, PartialEq, Eq, Structural, Hash)]
pub enum NameInfoClass {
    /// Whether the state name exists
    StateNameExist,
    /// Whether the state has subscribers
    SubscribersPresent,
    /// Whether the state is quiescent, i.e. none of its subscribers is running
    IsQuiescent,
}

/// The numeric code of a class of information
pub open spec fn name_info_class_code(class: NameInfoClass) -> u32 {
    match class {
        NameInfoClass::StateNameExist => 0,
        NameInfoClass::SubscribersPresent => 1,
        NameInfoClass::IsQuiescent => 2,
    }
}

/// What the `NTSTATUS` code of a call means
///
/// A non-negative code is success. An update conditional on a change stamp that does not match fails with
/// `STATUS_UNSUCCESSFUL` (`0xC0000001`), which means that no update happened rather than an error; every other
/// negative code is an error. A query into a buffer that is too small fails with `STATUS_BUFFER_TOO_SMALL`
/// (`0xC0000023`) and still reports the size of the data: that is a failure only if the data would have fit.
pub proof fn lemma_status_meanings(status: i32, reply: QueryReply, buffer_size: usize)
    ensures
        STATUS_UNSUCCESSFUL as u32 == 0xC000_0001u32,
        STATUS_BUFFER_TOO_SMALL as u32 == 0xC000_0023u32,
        set_outcome(status) is Ok <==> status >= 0,
        update_outcome(status) == Ok::<bool, WnfUpdateError>(true) <==> status >= 0,
        update_outcome(status) == Ok::<bool, WnfUpdateError>(false) <==> status as u32 == 0xC000_0001u32,
        update_outcome(status) is Err <==> (status < 0 && status as u32 != 0xC000_0001u32),
        update_outcome(status) is Err ==> update_outcome(status) == Err::<bool, WnfUpdateError>(
            WnfUpdateError::Windows(status),
        ),
        query_failed(reply, buffer_size) <==> (reply.status < 0 && !(reply.status as u32 == 0xC000_0023u32
            && reply.size > buffer_size)),
{
    assert((status as u32 == 0xC000_0001u32) == (status == -1073741823i32)) by (bit_vector);
    let rs = reply.status;
    assert((rs as u32 == 0xC000_0023u32) == (rs == -1073741789i32)) by (bit_vector);
    assert((-1073741823i32) as u32 == 0xC000_0001u32 && (-1073741789i32) as u32 == 0xC000_0023u32) by (bit_vector);
}

/// The numeric codes of the classes of information are the ones of the Windows native API: whether the name exists
/// `0`, whether the state has subscribers `1`, whether it is quiescent `2`
pub proof fn lemma_name_info_class_code_values()
    ensures
        name_info_class_code(NameInfoClass::StateNameExist) == 0,
        name_info_class_code(NameInfoClass::SubscribersPresent) == 1,
        name_info_class_code(NameInfoClass::IsQuiescent) == 2,
{
}

/// A request for information about a state name
#[derive(Clone, Copy, Debug, PartialEq, Eq, Structural)]
pub struct InfoRequest {
    /// The opaque value of the state name
    pub state_name: u64,
    /// The numeric code of the class of information
    pub name_info_class: u32,
}

/// The reply to a request for information about a state name
#[derive(Clone, Copy, Debug, PartialEq, Eq, Structural)]
pub struct InfoReply {
    /// The `NTSTATUS` code of the call
    pub status: i32,
    /// The value written by the call, `0` or `1` for a successful call
    pub value: u32,
}

/// A request for the data of a state
#[derive(Clone, Copy, Debug, PartialEq, Eq)]
pub struct QueryRequest {
    /// The opaque value of the state name
    pub state_name: u64,
    /// The type id that the state was created with
    pub type_id: TypeId,
    /// The size in bytes of the buffer to read the data into
    pub buffer_size: usize,
}

/// The reply to a request for the data of a state
#[derive(Clone, Debug, PartialEq, Eq)]
pub struct QueryReply {
    /// The `NTSTATUS` code of the call
    pub status: i32,
    /// The size in bytes of the data
    pub size: u32,
    /// The change stamp of the data
    pub change_stamp: u32,
    /// The bytes written to the buffer: all of the data if they fit into it
    pub bytes: Vec<u8>,
}

/// A request to update the data of a state
#[derive(Clone, Debug, PartialEq, Eq)]
pub struct UpdateRequest {
    /// The opaque value of the state name
    pub state_name: u64,
    /// The type id that the state was created with
    pub type_id: TypeId,
    /// The new data
    pub data: Vec<u8>,
    /// The change stamp that the state must have for the update to happen, if `check_stamp` is `1`
    pub matching_change_stamp: u32,
    /// `1` if the update is conditional on the change stamp, `0` otherwise
    pub check_stamp: u32,
}

/// A request to subscribe to changes of the data of a state
#[derive(Clone, Copy, Debug, PartialEq, Eq)]
pub struct SubscribeRequest {
    /// The opaque value of the state name
    pub state_name: u64,
    /// The type id that the state was created with
    pub type_id: TypeId,
    /// Only changes after this change stamp are notified
    pub after_change_stamp: u32,
}

/// The reply to a request to subscribe
#[derive(Clone, Copy, Debug, PartialEq, Eq, Structural)]
pub struct SubscribeReply {
    /// The `NTSTATUS` code of the call
    pub status: i32,
    /// The id of the new subscription, for a successful call
    pub subscription: u64,
}

/// The reply to a request to create a state
#[derive(Clone, Copy, Debug, PartialEq, Eq, Structural)]
pub struct CreateReply {
    /// The `NTSTATUS` code of the call
    pub status: i32,
    /// The opaque value of the new state name, for a successful call
    pub state_name: u64,
}

/// Whether a query reply tells of a failure
///
/// A query into a buffer that is too small fails, unless the reported size is larger than the buffer: then the data
/// were read incompletely and their size is known.
pub open spec fn query_failed(reply: QueryReply, buffer_size: usize) -> bool {
    reply.status < 0 && (reply.status != STATUS_BUFFER_TOO_SMALL || reply.size as int <= buffer_size as int)
}

/// The result of querying a single `T`, given the reply to a query into a buffer of the size of `T`
pub open spec fn value_query<T: CheckedBitPattern>(reply: QueryReply) -> Result<(T, u32), WnfQueryError> {
    if query_failed(reply, bits_size::<T>() as usize) {
        Err(WnfQueryError::Windows(reply.status))
    } else if reply.size as nat != bits_size::<T>() {
        Err(WnfQueryError::WrongSize { expected: bits_size::<T>() as usize, actual: reply.size as usize })
    } else {
        match value_read::<T>(reply.bytes@) {
            Ok(v) => Ok((v, reply.change_stamp)),
            Err(e) => Err(query_error_of(e)),
        }
    }
}

/// One step of querying: query again with a larger buffer, or finish with a result
pub enum QueryStep<D> {
    /// The data did not fit: query again with a buffer of this size in bytes
    Grow(usize),
    /// Querying is finished
    Done(Result<D, WnfQueryError>),
}

/// Whether `step` is the step that follows the reply to a query of a slice of `T` into a buffer of `capacity` bytes,
/// where `data` tells which data a finished query yields from the elements and the change stamp
pub open spec fn slice_query_matches<T: CheckedBitPattern, D>(
    capacity: usize,
    reply: QueryReply,
    step: QueryStep<D>,
    data: spec_fn(D, Seq<T>, u32) -> bool,
) -> bool {
    let n = bits_size::<T>();
    let size = reply.size as usize;
    if query_failed(reply, capacity) {
        step == QueryStep::<D>::Done(Err(WnfQueryError::Windows(reply.status)))
    } else if size == 0 {
        step matches QueryStep::Done(Ok(d)) && data(d, Seq::empty(), reply.change_stamp)
    } else if n == 0 {
        step == QueryStep::<D>::Done(Err(WnfQueryError::WrongSize { expected: 0, actual: size }))
    } else if (size as nat) % n != 0 {
        step == QueryStep::<D>::Done(
            Err(WnfQueryError::WrongSizeMultiple { expected_modulus: n as usize, actual: size }),
        )
    } else if size > capacity {
        step == QueryStep::<D>::Grow(size)
    } else {
        match slice_read::<T>(reply.bytes@) {
            Ok(s) => step matches QueryStep::Done(Ok(d)) && data(d, s, reply.change_stamp),
            Err(e) => step == QueryStep::<D>::Done(Err(query_error_of(e))),
        }
    }
}

/// Stamped slice data holding the given elements and change stamp
pub open spec fn stamped_slice<T>(d: WnfStampedData<Vec<T>>, s: Seq<T>, stamp: u32) -> bool {
    d@.0@ == s && d@.1 == stamp
}

/// Slice data holding the given elements
pub open spec fn plain_slice<T>(d: Vec<T>, s: Seq<T>, stamp: u32) -> bool {
    d@ == s
}

/// Whether `step` is the step that follows the reply to a query of a slice of `T` with its change stamp into a
/// buffer of `capacity` bytes
pub open spec fn stamped_slice_query<T: CheckedBitPattern>(
    capacity: usize,
    reply: QueryReply,
    step: QueryStep<WnfStampedData<Vec<T>>>,
) -> bool {
    slice_query_matches::<T, WnfStampedData<Vec<T>>>(capacity, reply, step, |d, s, stamp| stamped_slice(d, s, stamp))
}

/// Whether `step` is the step that follows the reply to a query of a slice of `T` into a buffer of `capacity` bytes
pub open spec fn plain_slice_query<T: CheckedBitPattern>(
    capacity: usize,
    reply: QueryReply,
    step: QueryStep<Vec<T>>,
) -> bool {
    slice_query_matches::<T, Vec<T>>(capacity, reply, step, |d, s, stamp| plain_slice(d, s, stamp))
}

/// A request to update the data of the state with the given name and type id to the given bytes, conditional on the
/// given change stamp if any
pub open spec fn update_request_for(
    r: UpdateRequest,
    state: (u64, Option<u128>),
    data: Seq<u8>,
    expected_change_stamp: Option<u32>,
) -> bool {
    &&& r.state_name == state.0
    &&& r.type_id@ == state.1
    &&& r.data@ == data
    &&& match expected_change_stamp {
        Some(stamp) => r.matching_change_stamp == stamp && r.check_stamp == 1,
        None => r.matching_change_stamp == 0 && r.check_stamp == 0,
    }
}

/// The result of an unconditional update, given the `NTSTATUS` code of the call
pub open spec fn set_outcome(status: i32) -> Result<(), WnfUpdateError> {
    if status < 0 {
        Err(WnfUpdateError::Windows(status))
    } else {
        Ok(())
    }
}

/// The result of an update conditional on a change stamp, given the `NTSTATUS` code of the call: whether the
/// update happened
///
/// An update whose change stamp does not match fails with `STATUS_UNSUCCESSFUL`, which is no error.
pub open spec fn update_outcome(status: i32) -> Result<bool, WnfUpdateError> {
    if status == STATUS_UNSUCCESSFUL {
        Ok(false)
    } else if status < 0 {
        Err(WnfUpdateError::Windows(status))
    } else {
        Ok(true)
    }
}

/// Finishes an unconditional update, given the `NTSTATUS` code of the call
pub fn set_result(status: i32) -> (r: Result<(), WnfUpdateError>)
    ensures
        r == set_outcome(status),
{
    if status < 0 {
        Err(WnfUpdateError::Windows(status))
    } else {
        Ok(())
    }
}

/// Finishes an update conditional on a change stamp, given the `NTSTATUS` code of the call
pub fn update_result(status: i32) -> (r: Result<bool, WnfUpdateError>)
    ensures
        r == update_outcome(status),
{
    if status == STATUS_UNSUCCESSFUL {
        Ok(false)
    } else if status < 0 {
        Err(WnfUpdateError::Windows(status))
    } else {
        Ok(true)
    }
}

/// One step of applying a transformation to the data of a state, finishing with the transformed data `D`
pub enum ApplyStep<D, E> {
    /// The data did not fit: query again with a buffer of this size in bytes
    Grow(usize),
    /// Update the data as requested, conditional on the change stamp of the queried data; these are the transformed
    /// data that the request writes
    Update(UpdateRequest, D),
    /// The data changed before they could be updated: start over by querying them again
    Retry,
    /// Applying is finished: with the transformed data that were written, or with an error
    Finished(Result<D, WnfApplyError<E>>),
}

/// The step that follows the outcome of updating the data to the transformed data `data`
pub open spec fn apply_update_outcome<D, E>(status: i32, data: D) -> ApplyStep<D, E> {
    match update_outcome(status) {
        Ok(true) => ApplyStep::Finished(Ok(data)),
        Ok(false) => ApplyStep::Retry,
        Err(e) => ApplyStep::Finished(Err(WnfApplyError::Update(e))),
    }
}

/// Decides how applying a transformation goes on after updating the data to the transformed data, given the
/// `NTSTATUS` code of the update and the transformed data
///
/// A successful update finishes with the transformed data; an update that did not happen because the data changed
/// meanwhile starts over.
pub fn apply_update_result<D, E>(status: i32, data: D) -> (r: ApplyStep<D, E>)
    ensures
        r == apply_update_outcome::<D, E>(status, data),
{
    match update_result(status) {
        Ok(true) => ApplyStep::Finished(Ok(data)),
        Ok(false) => ApplyStep::Retry,
        Err(e) => ApplyStep::Finished(Err(WnfApplyError::Update(e))),
    }
}

/// The step that follows the outcome of a transformation of queried data with the given change stamp: the
/// transformed data are written, conditional on the change stamp, unless the transformation failed
pub open spec fn transformed_step<T: NoUninit, E>(
    state: (u64, Option<u128>),
    stamp: u32,
    out: Result<T, E>,
    step: ApplyStep<T, E>,
) -> bool {
    match out {
        Err(e) => step == ApplyStep::<T, E>::Finished(Err(WnfApplyError::Transform(WnfTransformError(e)))),
        Ok(d) => step matches ApplyStep::Update(req, w) && w == d && update_request_for(
            req,
            state,
            T::encode(d),
            Some(stamp),
        ),
    }
}

/// The step that follows the outcome of a transformation of a queried slice with the given change stamp
pub open spec fn transformed_slice_step<T: NoUninit, E>(
    state: (u64, Option<u128>),
    stamp: u32,
    out: Result<Vec<T>, E>,
    step: ApplyStep<Vec<T>, E>,
) -> bool {
    match out {
        Err(e) => step == ApplyStep::<Vec<T>, E>::Finished(Err(WnfApplyError::Transform(WnfTransformError(e)))),
        Ok(d) => step matches ApplyStep::Update(req, w) && w == d && update_request_for(
            req,
            state,
            encode_all(d@),
            Some(stamp),
        ),
    }
}

/// A state, seen through the opaque value of its name and the type id it was created with, whose data are read and
/// written as values of type `T`
pub struct RawWnfState<T> {
    state_name: StateName,
    type_id: TypeId,
    /// Ties the state to `T` without owning a `T`, keeping it `Send` and `Sync` whatever `T` is
    _marker: PhantomData<Ghost<T>>,
}

impl<T> Clone for RawWnfState<T> {
    fn clone(&self) -> (r: Self)
        ensures
            r@ == self@,
    {
        RawWnfState { state_name: self.state_name, type_id: self.type_id, _marker: PhantomData }
    }
}

impl<T> Copy for RawWnfState<T> {}

impl<T> View for RawWnfState<T> {
    type V = (u64, Option<u128>);

    /// The opaque value of the state name and the type id
    closed spec fn view(&self) -> (u64, Option<u128>) {
        (self.state_name@, self.type_id@)
    }
}

impl<T> RawWnfState<T> {
    /// Creates the untyped state with the given name
    pub fn from_state_name(state_name: StateName) -> (r: Self)
        ensures
            r@ == (state_name@, None::<u128>),
    {
        RawWnfState { state_name, type_id: TypeId::none(), _marker: PhantomData }
    }

    /// Creates the state with the given name and type id
    pub fn from_state_name_and_type_id(state_name: StateName, type_id: TypeId) -> (r: Self)
        ensures
            r@ == (state_name@, type_id@),
    {
        RawWnfState { state_name, type_id, _marker: PhantomData }
    }

    /// Returns the name of this state
    pub fn state_name(&self) -> (r: StateName)
        ensures
            r@ == self@.0,
    {
        self.state_name
    }

    /// Returns the type id of this state
    pub fn type_id(&self) -> (r: TypeId)
        ensures
            r@ == self@.1,
    {
        self.type_id
    }

    /// Casts this state to a state whose data are read and written as values of type `U`
    pub fn cast<U>(self) -> (r: RawWnfState<U>)
        ensures
            r@ == self@,
    {
        RawWnfState::from_state_name_and_type_id(self.state_name, self.type_id)
    }

    /// Returns the builder that a temporary state with machine scope is created from
    ///
    /// The state has no type id and the default maximum size, and grants everyone all access.
    pub fn create_temporary() -> (r: StateCreation<CreatableStateLifetime, DataScope, UnspecifiedSecurityDescriptor>)
        ensures
            r@.lifetime == CreatableStateLifetime::Temporary,
            r@.scope == DataScope::Machine,
            r@.maximum_state_size is None,
            r@.type_id is None,
    {
        StateCreation::new().lifetime(CreatableStateLifetime::Temporary).scope(DataScope::Machine)
    }

    /// Finishes creating a state with the given type id, given the reply to the request to create it
    pub fn created(type_id: TypeId, reply: CreateReply) -> (r: Result<Self, WnfCreateError>)
        ensures
            reply.status >= 0 ==> (r matches Ok(s) && s@ == (reply.state_name, type_id@)),
            reply.status < 0 ==> r == Err::<Self, WnfCreateError>(WnfCreateError::Windows(reply.status)),
    {
        if reply.status >= 0 {
            Ok(RawWnfState::from_state_name_and_type_id(StateName::from_opaque_value(reply.state_name), type_id))
        } else {
            Err(WnfCreateError::Windows(reply.status))
        }
    }

    /// Returns the opaque value of the state name to delete when deleting this state
    pub fn delete(self) -> (r: u64)
        ensures
            r == self@.0,
    {
        self.state_name.opaque_value()
    }

    /// Finishes deleting a state, given the `NTSTATUS` code of deleting it
    pub fn deleted(status: i32) -> (r: Result<(), WnfDeleteError>)
        ensures
            status >= 0 ==> r is Ok,
            status < 0 ==> r == Err::<(), WnfDeleteError>(WnfDeleteError::Windows(status)),
    {
        if status >= 0 {
            Ok(())
        } else {
            Err(WnfDeleteError::Windows(status))
        }
    }

    /// Returns the request for the given class of information about this state
    pub fn info_request(&self, class: NameInfoClass) -> (r: InfoRequest)
        ensures
            r.state_name == self@.0,
            r.name_info_class == name_info_class_code(class),
    {
        let code: u32 = match class {
            NameInfoClass::StateNameExist => 0,
            NameInfoClass::SubscribersPresent => 1,
            NameInfoClass::IsQuiescent => 2,
        };
        InfoRequest { state_name: self.state_name.opaque_value(), name_info_class: code }
    }

    /// Turns the reply to a request for information into a boolean
    fn info_internal(reply: InfoReply) -> (r: Result<bool, WnfInfoError>)
        requires
            reply.status >= 0 ==> reply.value <= 1,
        ensures
            reply.status >= 0 ==> r == Ok::<bool, WnfInfoError>(reply.value == 1),
            reply.status < 0 ==> r == Err::<bool, WnfInfoError>(WnfInfoError::Windows(reply.status)),
    {
        if reply.status >= 0 {
            Ok(reply.value == 1)
        } else {
            Err(WnfInfoError::Windows(reply.status))
        }
    }

    /// Whether this state exists, given the reply to the request for [`NameInfoClass::StateNameExist`]
    pub fn name_exists(&self, reply: InfoReply) -> (r: Result<bool, WnfInfoError>)
        requires
            reply.status >= 0 ==> reply.value <= 1,
        ensures
            reply.status >= 0 ==> r == Ok::<bool, WnfInfoError>(reply.value == 1),
            reply.status < 0 ==> r == Err::<bool, WnfInfoError>(WnfInfoError::Windows(reply.status)),
    {
        Self::info_internal(reply)
    }

    /// Whether this state has subscribers, given the reply to the request for
    /// [`NameInfoClass::SubscribersPresent`]
    pub fn subscribers_present(&self, reply: InfoReply) -> (r: Result<bool, WnfInfoError>)
        requires
            reply.status >= 0 ==> reply.value <= 1,
        ensures
            reply.status >= 0 ==> r == Ok::<bool, WnfInfoError>(reply.value == 1),
            reply.status < 0 ==> r == Err::<bool, WnfInfoError>(WnfInfoError::Windows(reply.status)),
    {
        Self::info_internal(reply)
    }

    /// Whether this state is quiescent, given the reply to the request for [`NameInfoClass::IsQuiescent`]
    pub fn is_quiescent(&self, reply: InfoReply) -> (r: Result<bool, WnfInfoError>)
        requires
            reply.status >= 0 ==> reply.value <= 1,
        ensures
            reply.status >= 0 ==> r == Ok::<bool, WnfInfoError>(reply.value == 1),
            reply.status < 0 ==> r == Err::<bool, WnfInfoError>(WnfInfoError::Windows(reply.status)),
    {
        Self::info_internal(reply)
    }

    /// Returns the request for the data of this state into a buffer of the given size
    pub fn query_request(&self, buffer_size: usize) -> (r: QueryRequest)
        ensures
            r.state_name == self@.0,
            r.type_id@ == self@.1,
            r.buffer_size == buffer_size,
    {
        QueryRequest { state_name: self.state_name.opaque_value(), type_id: self.type_id, buffer_size }
    }

    /// Returns the request to subscribe to changes of the data of this state after the given change stamp
    pub fn subscribe_request(&self, after_change_stamp: WnfChangeStamp) -> (r: SubscribeRequest)
        ensures
            r.state_name == self@.0,
            r.type_id@ == self@.1,
            r.after_change_stamp == after_change_stamp@,
    {
        SubscribeRequest {
            state_name: self.state_name.opaque_value(),
            type_id: self.type_id,
            after_change_stamp: after_change_stamp.value(),
        }
    }

    /// Finishes subscribing, given the context the notifications are delivered to and the reply to the request
    fn subscribe_internal<C>(context: Box<C>, reply: SubscribeReply) -> (r: Result<
        WnfSubscriptionHandle<C>,
        WnfSubscribeError,
    >)
        ensures
            reply.status >= 0 ==> (r matches Ok(h) && h@ == Some((*context, reply.subscription))),
            reply.status < 0 ==> (r matches Err(e) && e == WnfSubscribeError::Windows(reply.status)),
    {
        if reply.status >= 0 {
            Ok(WnfSubscriptionHandle::new(context, reply.subscription))
        } else {
            Err(WnfSubscribeError::Windows(reply.status))
        }
    }
}

impl<T: CheckedBitPattern> RawWnfState<T> {
    /// Queries the data into a buffer of the given size, keeping the reply if it tells of no failure
    fn query_internal(reply: QueryReply, buffer_size: usize) -> (r: Result<QueryReply, WnfQueryError>)
        ensures
            query_failed(reply, buffer_size) ==> r == Err::<QueryReply, WnfQueryError>(
                WnfQueryError::Windows(reply.status),
            ),
            !query_failed(reply, buffer_size) ==> r == Ok::<QueryReply, WnfQueryError>(reply),
    {
        if reply.status < 0 && (reply.status != STATUS_BUFFER_TOO_SMALL || reply.size as usize <= buffer_size) {
            Err(WnfQueryError::Windows(reply.status))
        } else {
            Ok(reply)
        }
    }

    /// Queries the data as a `T` with their change stamp, given the reply to a query into a buffer of the size of `T`
    pub fn query(&self, reply: QueryReply) -> (r: Result<WnfStampedData<T>, WnfQueryError>)
        ensures
            match value_query::<T>(reply) {
                Ok((v, stamp)) => r matches Ok(d) && d@ == (v, stamp),
                Err(e) => r == Err::<WnfStampedData<T>, WnfQueryError>(e),
            },
    {
        let n = <T::Bits as crate::bytes::AnyBitPattern>::size();
        let reply = match Self::query_internal(reply, n) {
            Ok(reply) => reply,
            Err(e) => return Err(e),
        };
        if reply.size as usize != n {
            return Err(WnfQueryError::WrongSize { expected: n, actual: reply.size as usize });
        }
        proof {
            lemma_wnf_change_stamp_from_u32(reply.change_stamp);
        }
        match value_from_buffer::<T>(reply.bytes.as_slice()) {
            Ok(v) => Ok(WnfStampedData::from_data_and_change_stamp(v, reply.change_stamp)),
            Err(e) => Err(WnfQueryError::from_read_error(e)),
        }
    }

    /// Queries the data as a `T`, given the reply to a query into a buffer of the size of `T`
    pub fn get(&self, reply: QueryReply) -> (r: Result<T, WnfQueryError>)
        ensures
            match value_query::<T>(reply) {
                Ok((v, _)) => r == Ok::<T, WnfQueryError>(v),
                Err(e) => r == Err::<T, WnfQueryError>(e),
            },
    {
        match self.query(reply) {
            Ok(d) => Ok(d.into_data()),
            Err(e) => Err(e),
        }
    }

    /// Queries the data as a boxed `T` with their change stamp, given the reply to a query into a buffer of the size
    /// of `T`
    pub fn query_boxed(&self, reply: QueryReply) -> (r: Result<WnfStampedData<Box<T>>, WnfQueryError>)
        ensures
            match value_query::<T>(reply) {
                Ok((v, stamp)) => r matches Ok(d) && *d@.0 == v && d@.1 == stamp,
                Err(e) => r == Err::<WnfStampedData<Box<T>>, WnfQueryError>(e),
            },
    {
        match self.query(reply) {
            Ok(d) => {
                let (v, stamp) = d.into_data_change_stamp();
                proof {
                    lemma_wnf_change_stamp_from_u32(stamp@);
                }
                Ok(WnfStampedData::from_data_and_change_stamp(Box::new(v), stamp.value()))
            },
            Err(e) => Err(e),
        }
    }

    /// Queries the data as a boxed `T`, given the reply to a query into a buffer of the size of `T`
    pub fn get_boxed(&self, reply: QueryReply) -> (r: Result<Box<T>, WnfQueryError>)
        ensures
            match value_query::<T>(reply) {
                Ok((v, _)) => r matches Ok(b) && *b == v,
                Err(e) => r == Err::<Box<T>, WnfQueryError>(e),
            },
    {
        match self.query(reply) {
            Ok(d) => Ok(Box::new(d.into_data())),
            Err(e) => Err(e),
        }
    }

    /// Queries the data as a slice of `T` with their change stamp, given the reply to a query into a buffer of
    /// `capacity` bytes
    ///
    /// A query of a slice starts with an empty buffer and grows it as long as the data do not fit.
    pub fn query_slice(&self, capacity: usize, reply: QueryReply) -> (r: QueryStep<WnfStampedData<Vec<T>>>)
        ensures
            stamped_slice_query::<T>(capacity, reply, r),
    {
        let reply = match Self::query_internal(reply, capacity) {
            Ok(reply) => reply,
            Err(e) => return QueryStep::Done(Err(e)),
        };
        let QueryReply { status, size, change_stamp, bytes } = reply;
        let output = ReadOutput { bytes, size: size as usize, meta: change_stamp };
        let ghost res = Ok::<ReadOutput<u32>, WnfQueryError>(output);
        let step = slice_read_step::<T, u32, WnfQueryError>(capacity, Ok(output));
        assert(slice_step_matches::<T, u32, WnfQueryError>(capacity, res, step));
        match step {
            SliceReadStep::Grow(c) => QueryStep::Grow(c),
            SliceReadStep::Done(Ok((v, stamp))) => {
                proof {
                    lemma_wnf_change_stamp_from_u32(stamp);
                }
                QueryStep::Done(Ok(WnfStampedData::from_data_and_change_stamp(v, stamp)))
            },
            SliceReadStep::Done(Err(FromReaderError::Data(e))) => {
                QueryStep::Done(Err(WnfQueryError::from_read_error(e)))
            },
            SliceReadStep::Done(Err(FromReaderError::Reader(e))) => QueryStep::Done(Err(e)),
        }
    }

    /// Queries the data as a slice of `T`, given the reply to a query into a buffer of `capacity` bytes
    pub fn get_slice(&self, capacity: usize, reply: QueryReply) -> (r: QueryStep<Vec<T>>)
        ensures
            plain_slice_query::<T>(capacity, reply, r),
    {
        match self.query_slice(capacity, reply) {
            QueryStep::Grow(c) => QueryStep::Grow(c),
            QueryStep::Done(Ok(d)) => QueryStep::Done(Ok(d.into_data())),
            QueryStep::Done(Err(e)) => QueryStep::Done(Err(e)),
        }
    }

    /// Finishes subscribing to changes of the data as a `T`, given the context the notifications are delivered to
    /// and the reply to the request to subscribe
    pub fn subscribe<C>(&self, context: Box<C>, reply: SubscribeReply) -> (r: Result<
        WnfSubscriptionHandle<C>,
        WnfSubscribeError,
    >)
        ensures
            reply.status >= 0 ==> (r matches Ok(h) && h@ == Some((*context, reply.subscription))),
            reply.status < 0 ==> (r matches Err(e) && e == WnfSubscribeError::Windows(reply.status)),
    {
        Self::subscribe_internal(context, reply)
    }

    /// Finishes subscribing to changes of the data as a boxed `T`, given the context the notifications are delivered
    /// to and the reply to the request to subscribe
    pub fn subscribe_boxed<C>(&self, context: Box<C>, reply: SubscribeReply) -> (r: Result<
        WnfSubscriptionHandle<C>,
        WnfSubscribeError,
    >)
        ensures
            reply.status >= 0 ==> (r matches Ok(h) && h@ == Some((*context, reply.subscription))),
            reply.status < 0 ==> (r matches Err(e) && e == WnfSubscribeError::Windows(reply.status)),
    {
        Self::subscribe_internal(context, reply)
    }

    /// Finishes subscribing to changes of the data as a slice of `T`, given the context the notifications are
    /// delivered to and the reply to the request to subscribe
    pub fn subscribe_slice<C>(&self, context: Box<C>, reply: SubscribeReply) -> (r: Result<
        WnfSubscriptionHandle<C>,
        WnfSubscribeError,
    >)
        ensures
            reply.status >= 0 ==> (r matches Ok(h) && h@ == Some((*context, reply.subscription))),
            reply.status < 0 ==> (r matches Err(e) && e == WnfSubscribeError::Windows(reply.status)),
    {
        Self::subscribe_internal(context, reply)
    }
}

impl<T: NoUninit> RawWnfState<T> {
    /// Returns the request to update the data to the given slice, conditional on the given change stamp if any
    fn update_slice_internal(&self, data: &[T], expected_change_stamp: Option<WnfChangeStamp>) -> (r: UpdateRequest)
        ensures
            update_request_for(
                r,
                self@,
                encode_all(data@),
                match expected_change_stamp {
                    Some(stamp) => Some(stamp@),
                    None => None,
                },
            ),
    {
        let (matching_change_stamp, check_stamp): (u32, u32) = match expected_change_stamp {
            Some(stamp) => (stamp.value(), 1),
            None => (0, 0),
        };
        UpdateRequest {
            state_name: self.state_name.opaque_value(),
            type_id: self.type_id,
            data: slice_to_bytes(data),
            matching_change_stamp,
            check_stamp,
        }
    }

    /// Returns the request to update the data to the given value unconditionally
    ///
    /// The update is finished by [`set_result`].
    pub fn set(&self, data: &T) -> (r: UpdateRequest)
        ensures
            update_request_for(r, self@, T::encode(*data), None),
    {
        let bytes = data.to_bytes();
        UpdateRequest {
            state_name: self.state_name.opaque_value(),
            type_id: self.type_id,
            data: bytes,
            matching_change_stamp: 0,
            check_stamp: 0,
        }
    }

    /// Returns the request to update the data to the given slice unconditionally
    ///
    /// The update is finished by [`set_result`].
    pub fn set_slice(&self, data: &[T]) -> (r: UpdateRequest)
        ensures
            update_request_for(r, self@, encode_all(data@), None),
    {
        self.update_slice_internal(data, None)
    }

    /// Returns the request to update the data to the given value if the state has the given change stamp
    ///
    /// The update is finished by [`update_result`].
    pub fn update(&self, data: &T, expected_change_stamp: WnfChangeStamp) -> (r: UpdateRequest)
        ensures
            update_request_for(r, self@, T::encode(*data), Some(expected_change_stamp@)),
    {
        let bytes = data.to_bytes();
        UpdateRequest {
            state_name: self.state_name.opaque_value(),
            type_id: self.type_id,
            data: bytes,
            matching_change_stamp: expected_change_stamp.value(),
            check_stamp: 1,
        }
    }

    /// Returns the request to update the data to the given slice if the state has the given change stamp
    ///
    /// The update is finished by [`update_result`].
    pub fn update_slice(&self, data: &[T], expected_change_stamp: WnfChangeStamp) -> (r: UpdateRequest)
        ensures
            update_request_for(r, self@, encode_all(data@), Some(expected_change_stamp@)),
    {
        self.update_slice_internal(data, Some(expected_change_stamp))
    }
}

impl<T: CheckedBitPattern + NoUninit> RawWnfState<T> {
    /// Applies a transformation to the data as a `T`, given the reply to a query into a buffer of the size of `T`
    ///
    /// If the query succeeded, the transformation is called on the queried data, and the transformed data are to be
    /// written, conditional on the change stamp of the queried data. The outcome of that update is decided by
    /// [`apply_update_result`], which finishes with the transformed data once they were written.
    pub fn apply<F>(&self, reply: QueryReply, transform: F) -> (r: ApplyStep<T, core::convert::Infallible>) where
        F: FnOnce(T) -> T,

        requires
            forall|v: T| #[trigger] transform.requires((v,)),
        ensures
            match value_query::<T>(reply) {
                Err(e) => r == ApplyStep::<T, core::convert::Infallible>::Finished(Err(WnfApplyError::Query(e))),
                Ok((v, stamp)) => exists|out: T|
                    #[trigger] transform.ensures((v,), out) && transformed_step::<T, core::convert::Infallible>(
                        self@,
                        stamp,
                        Ok(out),
                        r,
                    ),
            },
    {
        match self.query(reply) {
            Err(e) => ApplyStep::Finished(Err(WnfApplyError::Query(e))),
            Ok(d) => {
                let (v, stamp) = d.into_data_change_stamp();
                let data = transform(v);
                let request = self.update(&data, stamp);
                ApplyStep::Update(request, data)
            },
        }
    }

    /// Applies a fallible transformation to the data as a `T`, given the reply to a query into a buffer of the size
    /// of `T`
    ///
    /// This works as [`RawWnfState::apply`], except that applying finishes with an error, without an update, if the
    /// transformation fails.
    pub fn try_apply<E, F>(&self, reply: QueryReply, transform: F) -> (r: ApplyStep<T, E>) where
        F: FnOnce(T) -> Result<T, E>,

        requires
            forall|v: T| #[trigger] transform.requires((v,)),
        ensures
            match value_query::<T>(reply) {
                Err(e) => r == ApplyStep::<T, E>::Finished(Err(WnfApplyError::Query(e))),
                Ok((v, stamp)) => exists|out: Result<T, E>|
                    #[trigger] transform.ensures((v,), out) && transformed_step::<T, E>(self@, stamp, out, r),
            },
    {
        match self.query(reply) {
            Err(e) => ApplyStep::Finished(Err(WnfApplyError::Query(e))),
            Ok(d) => {
                let (v, stamp) = d.into_data_change_stamp();
                match transform(v) {
                    Err(e) => ApplyStep::Finished(Err(WnfApplyError::Transform(WnfTransformError(e)))),
                    Ok(data) => {
                        let request = self.update(&data, stamp);
                        ApplyStep::Update(request, data)
                    },
                }
            },
        }
    }

    /// Applies a transformation to the data as a boxed `T`, given the reply to a query into a buffer of the size of
    /// `T`
    ///
    /// This works as [`RawWnfState::apply`], except that the transformation is called on the boxed data.
    pub fn apply_boxed<F>(&self, reply: QueryReply, transform: F) -> (r: ApplyStep<T, core::convert::Infallible>) where
        F: FnOnce(Box<T>) -> T,

        requires
            forall|v: Box<T>| #[trigger] transform.requires((v,)),
        ensures
            match value_query::<T>(reply) {
                Err(e) => r == ApplyStep::<T, core::convert::Infallible>::Finished(Err(WnfApplyError::Query(e))),
                Ok((v, stamp)) => exists|b: Box<T>, out: T|
                    *b == v && #[trigger] transform.ensures((b,), out) && transformed_step::<
                        T,
                        core::convert::Infallible,
                    >(self@, stamp, Ok(out), r),
            },
    {
        match self.query_boxed(reply) {
            Err(e) => ApplyStep::Finished(Err(WnfApplyError::Query(e))),
            Ok(d) => {
                let (v, stamp) = d.into_data_change_stamp();
                let data = transform(v);
                let request = self.update(&data, stamp);
                ApplyStep::Update(request, data)
            },
        }
    }

    /// Applies a fallible transformation to the data as a boxed `T`, given the reply to a query into a buffer of the
    /// size of `T`
    ///
    /// This works as [`RawWnfState::try_apply`], except that the transformation is called on the boxed data.
    pub fn try_apply_boxed<E, F>(&self, reply: QueryReply, transform: F) -> (r: ApplyStep<T, E>) where
        F: FnOnce(Box<T>) -> Result<T, E>,

        requires
            forall|v: Box<T>| #[trigger] transform.requires((v,)),
        ensures
            match value_query::<T>(reply) {
                Err(e) => r == ApplyStep::<T, E>::Finished(Err(WnfApplyError::Query(e))),
                Ok((v, stamp)) => exists|b: Box<T>, out: Result<T, E>|
                    *b == v && #[trigger] transform.ensures((b,), out) && transformed_step::<T, E>(
                        self@,
                        stamp,
                        out,
                        r,
                    ),
            },
    {
        match self.query_boxed(reply) {
            Err(e) => ApplyStep::Finished(Err(WnfApplyError::Query(e))),
            Ok(d) => {
                let (v, stamp) = d.into_data_change_stamp();
                match transform(v) {
                    Err(e) => ApplyStep::Finished(Err(WnfApplyError::Transform(WnfTransformError(e)))),
                    Ok(data) => {
                        let request = self.update(&data, stamp);
                        ApplyStep::Update(request, data)
                    },
                }
            },
        }
    }

    /// Applies a transformation to the data as a slice of `T`, given the reply to a query into a buffer of
    /// `capacity` bytes
    ///
    /// This works as [`RawWnfState::apply`] on the steps of [`RawWnfState::query_slice`]: while the data do not fit
    /// into the buffer, the query is to be repeated with a larger one.
    pub fn apply_slice<F>(&self, capacity: usize, reply: QueryReply, transform: F) -> (r: ApplyStep<
        Vec<T>,
        core::convert::Infallible,
    >) where F: FnOnce(Vec<T>) -> Vec<T>
        requires
            forall|v: Vec<T>| #[trigger] transform.requires((v,)),
        ensures
            exists|q: QueryStep<WnfStampedData<Vec<T>>>|
                #[trigger] stamped_slice_query::<T>(capacity, reply, q) && match q {
                    QueryStep::Grow(c) => r == ApplyStep::<Vec<T>, core::convert::Infallible>::Grow(c),
                    QueryStep::Done(Err(e)) => r == ApplyStep::<Vec<T>, core::convert::Infallible>::Finished(
                        Err(WnfApplyError::Query(e)),
                    ),
                    QueryStep::Done(Ok(d)) => exists|out: Vec<T>|
                        #[trigger] transform.ensures((d@.0,), out) && transformed_slice_step::<
                            T,
                            core::convert::Infallible,
                        >(self@, d@.1, Ok(out), r),
                },
    {
        let q = self.query_slice(capacity, reply);
        match q {
            QueryStep::Grow(c) => ApplyStep::Grow(c),
            QueryStep::Done(Err(e)) => ApplyStep::Finished(Err(WnfApplyError::Query(e))),
            QueryStep::Done(Ok(d)) => {
                let (v, stamp) = d.into_data_change_stamp();
                let data = transform(v);
                let request = self.update_slice(data.as_slice(), stamp);
                ApplyStep::Update(request, data)
            },
        }
    }

    /// Applies a fallible transformation to the data as a slice of `T`, given the reply to a query into a buffer of
    /// `capacity` bytes
    ///
    /// This works as [`RawWnfState::apply_slice`], except that applying finishes with an error, without an update, if
    /// the transformation fails.
    pub fn try_apply_slice<E, F>(&self, capacity: usize, reply: QueryReply, transform: F) -> (r: ApplyStep<
        Vec<T>,
        E,
    >) where F: FnOnce(Vec<T>) -> Result<Vec<T>, E>
        requires
            forall|v: Vec<T>| #[trigger] transform.requires((v,)),
        ensures
            exists|q: QueryStep<WnfStampedData<Vec<T>>>|
                #[trigger] stamped_slice_query::<T>(capacity, reply, q) && match q {
                    QueryStep::Grow(c) => r == ApplyStep::<Vec<T>, E>::Grow(c),
                    QueryStep::Done(Err(e)) => r == ApplyStep::<Vec<T>, E>::Finished(Err(WnfApplyError::Query(e))),
                    QueryStep::Done(Ok(d)) => exists|out: Result<Vec<T>, E>|
                        #[trigger] transform.ensures((d@.0,), out) && transformed_slice_step::<T, E>(
                            self@,
                            d@.1,
                            out,
                            r,
                        ),
                },
    {
        let q = self.query_slice(capacity, reply);
        match q {
            QueryStep::Grow(c) => ApplyStep::Grow(c),
            QueryStep::Done(Err(e)) => ApplyStep::Finished(Err(WnfApplyError::Query(e))),
            QueryStep::Done(Ok(d)) => {
                let (v, stamp) = d.into_data_change_stamp();
                match transform(v) {
                    Err(e) => ApplyStep::Finished(Err(WnfApplyError::Transform(WnfTransformError(e)))),
                    Ok(data) => {
                        let request = self.update_slice(data.as_slice(), stamp);
                        ApplyStep::Update(request, data)
                    },
                }
            },
        }
    }
}

/// Applying a transformation writes the transformed value and finishes with it: once the update that the apply step
/// requests has succeeded, applying is finished with the transformed value, and a query of the written data gives it
/// back
pub proof fn lemma_apply_writes_and_returns_transformed<T: AnyBitPattern + NoUninit, E>(
    state: (u64, Option<u128>),
    stamp: u32,
    transformed: T,
    step: ApplyStep<T, E>,
    status: i32,
    reply: QueryReply,
)
    requires
        encoding_round_trips::<T>(),
        transformed_step::<T, E>(state, stamp, Ok(transformed), step),
        status >= 0,
        reply.status >= 0,
        step matches ApplyStep::Update(req, _) && reply.size as nat == req.data@.len() && reply.bytes@ == req.data@,
    ensures
        step matches ApplyStep::Update(req, w) && w == transformed && apply_update_outcome::<T, E>(status, w)
            == ApplyStep::<T, E>::Finished(Ok(transformed)),
        value_query::<T>(reply) == Ok::<(T, u32), WnfQueryError>((transformed, reply.change_stamp)),
{
    if let ApplyStep::Update(req, w) = step {
        lemma_query_reads_back_update(state, transformed, Some(stamp), req, reply);
    }
}

/// Reads the data delivered with a notification as a `T`, or `None` if they cannot be read as a `T`
pub fn notification_value<T: CheckedBitPattern>(bytes: &[u8]) -> (r: Option<T>)
    ensures
        match value_read::<T>(bytes@) {
            Ok(v) => r == Some(v),
            Err(_) => r is None,
        },
{
    match value_from_buffer::<T>(bytes) {
        Ok(v) => Some(v),
        Err(_) => None,
    }
}

/// Reads the data delivered with a notification as a boxed `T`, or `None` if they cannot be read as a `T`
pub fn notification_boxed<T: CheckedBitPattern>(bytes: &[u8]) -> (r: Option<Box<T>>)
    ensures
        match value_read::<T>(bytes@) {
            Ok(v) => r matches Some(b) && *b == v,
            Err(_) => r is None,
        },
{
    match value_from_buffer::<T>(bytes) {
        Ok(v) => Some(Box::new(v)),
        Err(_) => None,
    }
}

/// Reads the data delivered with a notification as a slice of `T`, or `None` if they cannot be read as a slice of
/// `T`
pub fn notification_slice<T: CheckedBitPattern>(bytes: &[u8]) -> (r: Option<Vec<T>>)
    ensures
        match slice_read::<T>(bytes@) {
            Ok(s) => r matches Some(v) && v@ == s,
            Err(_) => r is None,
        },
{
    match crate::read::slice_from_buffer::<T>(bytes) {
        Ok(v) => Some(v),
        Err(_) => None,
    }
}

/// Whether `d` is what a notification delivering `bytes` gives as a `T`
pub open spec fn value_notified<T: CheckedBitPattern>(bytes: Seq<u8>, d: Option<T>) -> bool {
    match value_read::<T>(bytes) {
        Ok(v) => d == Some(v),
        Err(_) => d is None,
    }
}

/// Whether `d` is what a notification delivering `bytes` gives as a boxed `T`
pub open spec fn boxed_notified<T: CheckedBitPattern>(bytes: Seq<u8>, d: Option<Box<T>>) -> bool {
    match value_read::<T>(bytes) {
        Ok(v) => d matches Some(b) && *b == v,
        Err(_) => d is None,
    }
}

/// Whether `d` is what a notification delivering `bytes` gives as a slice of `T`
pub open spec fn slice_notified<T: CheckedBitPattern>(bytes: Seq<u8>, d: Option<Vec<T>>) -> bool {
    match slice_read::<T>(bytes) {
        Ok(s) => d matches Some(v) && v@ == s,
        Err(_) => d is None,
    }
}

/// Delivers a notification to a listener of changes to the data as a `T`
///
/// The listener is called once, with the data read from the delivered bytes, or `None` if they cannot be read as a
/// `T`, and with the change stamp of the change.
pub fn notify_value<T: CheckedBitPattern, A, F: WnfStateChangeListener<T, A>>(
    listener: &mut F,
    bytes: &[u8],
    change_stamp: WnfChangeStamp,
)
    requires
        forall|d: Option<T>| value_notified(bytes@, d) ==> #[trigger] old(listener).accepts(d, change_stamp),
    ensures
        exists|d: Option<T>| value_notified(bytes@, d) && #[trigger] old(listener).may_finish(d, change_stamp),
{
    let data = notification_value::<T>(bytes);
    listener.call(data, change_stamp);
}

/// Delivers a notification to a listener of changes to the data as a boxed `T`
///
/// The listener is called once, with the boxed data read from the delivered bytes, or `None` if they cannot be read
/// as a `T`, and with the change stamp of the change.
pub fn notify_boxed<T: CheckedBitPattern, A, F: WnfStateChangeListener<Box<T>, A>>(
    listener: &mut F,
    bytes: &[u8],
    change_stamp: WnfChangeStamp,
)
    requires
        forall|d: Option<Box<T>>| boxed_notified(bytes@, d) ==> #[trigger] old(listener).accepts(d, change_stamp),
    ensures
        exists|d: Option<Box<T>>| boxed_notified(bytes@, d) && #[trigger] old(listener).may_finish(d, change_stamp),
{
    let data = notification_boxed::<T>(bytes);
    listener.call(data, change_stamp);
}

/// Delivers a notification to a listener of changes to the data as a slice of `T`
///
/// The listener is called once, with the elements read from the delivered bytes, or `None` if they cannot be read as
/// a slice of `T`, and with the change stamp of the change.
pub fn notify_slice<T: CheckedBitPattern, A, F: WnfStateChangeListener<Vec<T>, A>>(
    listener: &mut F,
    bytes: &[u8],
    change_stamp: WnfChangeStamp,
)
    requires
        forall|d: Option<Vec<T>>| slice_notified(bytes@, d) ==> #[trigger] old(listener).accepts(d, change_stamp),
    ensures
        exists|d: Option<Vec<T>>| slice_notified(bytes@, d) && #[trigger] old(listener).may_finish(d, change_stamp),
{
    let data = notification_slice::<T>(bytes);
    listener.call(data, change_stamp);
}

/// A query of the data that an update wrote gives back the written value, with the change stamp of the data
pub proof fn lemma_query_reads_back_update<T: AnyBitPattern + NoUninit>(
    state: (u64, Option<u128>),
    value: T,
    expected_change_stamp: Option<u32>,
    request: UpdateRequest,
    reply: QueryReply,
)
    requires
        encoding_round_trips::<T>(),
        update_request_for(request, state, T::encode(value), expected_change_stamp),
        reply.status >= 0,
        reply.size as nat == request.data@.len(),
        reply.bytes@ == request.data@,
    ensures
        value_query::<T>(reply) == Ok::<(T, u32), WnfQueryError>((value, reply.change_stamp)),
{
    lemma_value_read_of_encoding(value);
}

/// A query of a slice into a buffer large enough for the data that an update wrote gives back the written values,
/// with the change stamp of the data
pub proof fn lemma_query_slice_reads_back_update_slice<T: AnyBitPattern + NoUninit>(
    state: (u64, Option<u128>),
    values: Seq<T>,
    expected_change_stamp: Option<u32>,
    request: UpdateRequest,
    capacity: usize,
    reply: QueryReply,
    step: QueryStep<WnfStampedData<Vec<T>>>,
)
    requires
        encoding_round_trips::<T>(),
        T::byte_size() > 0,
        update_request_for(request, state, encode_all(values), expected_change_stamp),
        reply.status >= 0,
        reply.size as nat == request.data@.len(),
        reply.bytes@ == request.data@,
        reply.size <= capacity,
        stamped_slice_query::<T>(capacity, reply, step),
    ensures
        step matches QueryStep::Done(Ok(d)) && d@.0@ == values && d@.1 == reply.change_stamp,
{
    lemma_slice_read_of_encoding(values);
    if reply.size == 0 {
        assert(values.len() == 0) by {
            if values.len() > 0 {
                assert(values.len() * T::byte_size() >= T::byte_size()) by (nonlinear_arith)
                    requires
                        values.len() > 0,
                ;
            }
        }
        assert(values =~= Seq::<T>::empty());
    }
}

/// While the data of a slice query do not fit, the buffer grows: the query is repeated with a strictly larger one
pub proof fn lemma_slice_query_grows<T: CheckedBitPattern>(
    capacity: usize,
    reply: QueryReply,
    step: QueryStep<WnfStampedData<Vec<T>>>,
)
    requires
        stamped_slice_query::<T>(capacity, reply, step),
        step is Grow,
    ensures
        step->Grow_0 > capacity,
{
}

/// How replacing the data of a state goes on after updating them to the new value
pub enum ReplaceStep<D> {
    /// The data were replaced: these are the previous data
    Replaced(D),
    /// The data changed before they could be updated: start over by querying them again
    Retry,
    /// Updating the data failed
    Failed(WnfUpdateError),
}

/// Decides how replacing goes on after updating the data to the new value, given the `NTSTATUS` code of the update
/// and the previous data
pub fn replace_update_result<D>(status: i32, previous: D) -> (r: ReplaceStep<D>)
    ensures
        match update_outcome(status) {
            Ok(true) => r == ReplaceStep::Replaced(previous),
            Ok(false) => r is Retry,
            Err(e) => r == ReplaceStep::<D>::Failed(e),
        },
{
    match update_result(status) {
        Ok(true) => ReplaceStep::Replaced(previous),
        Ok(false) => ReplaceStep::Retry,
        Err(e) => ReplaceStep::Failed(e),
    }
}

impl<T: CheckedBitPattern + NoUninit> RawWnfState<T> {
    /// Starts replacing the data by a new value, given the reply to a query into a buffer of the size of `T`
    ///
    /// If the query succeeded, this yields the request to update the data to the new value, conditional on the
    /// change stamp of the queried data, together with the queried data, which become the previous data once the
    /// update has happened.
    pub fn replace(&self, reply: QueryReply, new_value: &T) -> (r: Result<(UpdateRequest, T), WnfQueryError>)
        ensures
            match value_query::<T>(reply) {
                Err(e) => r == Err::<(UpdateRequest, T), WnfQueryError>(e),
                Ok((v, stamp)) => r matches Ok((req, previous)) && previous == v && update_request_for(
                    req,
                    self@,
                    T::encode(*new_value),
                    Some(stamp),
                ),
            },
    {
        match self.query(reply) {
            Err(e) => Err(e),
            Ok(d) => {
                let (previous, stamp) = d.into_data_change_stamp();
                Ok((self.update(new_value, stamp), previous))
            },
        }
    }

    /// Starts replacing the data by a new value, keeping the previous data boxed, given the reply to a query into a
    /// buffer of the size of `T`
    pub fn replace_boxed(&self, reply: QueryReply, new_value: &T) -> (r: Result<
        (UpdateRequest, Box<T>),
        WnfQueryError,
    >)
        ensures
            match value_query::<T>(reply) {
                Err(e) => r == Err::<(UpdateRequest, Box<T>), WnfQueryError>(e),
                Ok((v, stamp)) => r matches Ok((req, previous)) && *previous == v && update_request_for(
                    req,
                    self@,
                    T::encode(*new_value),
                    Some(stamp),
                ),
            },
    {
        match self.query_boxed(reply) {
            Err(e) => Err(e),
            Ok(d) => {
                let (previous, stamp) = d.into_data_change_stamp();
                Ok((self.update(new_value, stamp), previous))
            },
        }
    }
}

} // verus!
