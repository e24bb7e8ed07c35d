//! Creating states
//!
//! A state is created from a [`StateCreation`], a builder collecting the properties of the new state. Its lifetime
//! and data scope are mandatory; the maximum size of its data, its security descriptor and its type id are optional.
//! Once the mandatory properties are set, the builder yields the request that the Windows native API is asked to
//! create the state with.

use vstd::prelude::*;

use crate::state_name::{data_scope_code, lifetime_code, DataScope, StateLifetime};
use crate::type_id::{TypeId, GUID};

verus! {

/// The maximum size in bytes of the data of a state, used when no other maximum is specified
pub const MAXIMUM_STATE_SIZE: usize = 0x1000;

/// Marker for a lifetime that is not specified yet
#[derive(Clone, Copy, Debug, PartialEq, Eq, Hash)]
pub struct UnspecifiedLifetime {
    _private: (),
}

impl UnspecifiedLifetime {
    /// Creates the marker
    pub(crate) fn new() -> (r: Self) {
        Self { _private: () }
    }
}

/// Marker for a data scope that is not specified yet
#[derive(Clone, Copy, Debug, PartialEq, Eq, Hash)]
pub struct UnspecifiedScope {
    _private: (),
}

impl UnspecifiedScope {
    /// Creates the marker
    pub(crate) fn new() -> (r: Self) {
        Self { _private: () }
    }
}

/// Marker for a security descriptor that is not specified: the state then gets a security descriptor granting
/// everyone all access
#[derive(Clone, Copy, Debug, PartialEq, Eq, Hash)]
pub struct UnspecifiedSecurityDescriptor {
    _private: (),
}

impl UnspecifiedSecurityDescriptor {
    /// Creates the marker
    pub(crate) fn new() -> (r: Self) {
        Self { _private: () }
    }
}

/// The lifetime of a state that can be created
///
/// Well-known states cannot be created: they are provisioned with the system.
#[derive(Clone, Copy, Debug, PartialEq, Eq, Structural, Hash)]
pub enum CreatableStateLifetime {
    /// A permanent state, never deleted automatically; its data are persisted across reboots if `persist_data` is set
    Permanent { persist_data: bool },
    /// A persistent (also known as "volatile") state, deleted on system reboot
    Persistent,
    /// A temporary state, deleted when the process it was created from exits
    Temporary,
}

/// The general lifetime corresponding to a creatable lifetime
pub open spec fn general_lifetime(lifetime: CreatableStateLifetime) -> StateLifetime {
    match lifetime {
        CreatableStateLifetime::Permanent { .. } => StateLifetime::Permanent,
        CreatableStateLifetime::Persistent => StateLifetime::Persistent,
        CreatableStateLifetime::Temporary => StateLifetime::Temporary,
    }
}

impl CreatableStateLifetime {
    /// Returns whether the data of a state with this lifetime are persisted across reboots
    pub fn persist_data(self) -> (r: bool)
        ensures
            r <==> self == (CreatableStateLifetime::Permanent { persist_data: true }),
    {
        match self {
            CreatableStateLifetime::Permanent { persist_data } => persist_data,
            _ => false,
        }
    }
}

impl vstd::std_specs::convert::FromSpecImpl<CreatableStateLifetime> for StateLifetime {
    open spec fn obeys_from_spec() -> bool {
        true
    }

    open spec fn from_spec(lifetime: CreatableStateLifetime) -> StateLifetime {
        general_lifetime(lifetime)
    }
}

impl From<CreatableStateLifetime> for StateLifetime {
    fn from(lifetime: CreatableStateLifetime) -> (r: StateLifetime) {
        match lifetime {
            CreatableStateLifetime::Permanent { .. } => StateLifetime::Permanent,
            CreatableStateLifetime::Persistent => StateLifetime::Persistent,
            CreatableStateLifetime::Temporary => StateLifetime::Temporary,
        }
    }
}

/// What the Windows native API is asked to create a state with
#[derive(Clone, Copy, Debug, PartialEq, Eq)]
pub struct CreateRequest<SD> {
    /// The numeric code of the lifetime
    pub name_lifetime: u32,
    /// The numeric code of the data scope
    pub data_scope: u32,
    /// `1` if the data are persisted across reboots, `0` otherwise
    pub persist_data: u8,
    /// The type id
    pub type_id: TypeId,
    /// The maximum size in bytes of the data
    pub maximum_state_size: u32,
    /// The security descriptor
    pub security_descriptor: SD,
}

/// A builder for creating a state
///
/// The type parameters `L`, `S` and `SD` are the types of the lifetime, the data scope and the security descriptor;
/// the first two are marker types until they are specified.
#[derive(Clone, Copy, Debug, PartialEq, Eq)]
pub struct StateCreation<L, S, SD> {
    lifetime: L,
    scope: S,
    maximum_state_size: Option<usize>,
    security_descriptor: SD,
    type_id: TypeId,
}

/// The properties collected by a [`StateCreation`]
pub struct CreationView<L, S, SD> {
    pub lifetime: L,
    pub scope: S,
    pub maximum_state_size: Option<usize>,
    pub security_descriptor: SD,
    pub type_id: Option<u128>,
}

impl<L, S, SD> View for StateCreation<L, S, SD> {
    type V = CreationView<L, S, SD>;

    closed spec fn view(&self) -> CreationView<L, S, SD> {
        CreationView {
            lifetime: self.lifetime,
            scope: self.scope,
            maximum_state_size: self.maximum_state_size,
            security_descriptor: self.security_descriptor,
            type_id: self.type_id@,
        }
    }
}

impl StateCreation<UnspecifiedLifetime, UnspecifiedScope, UnspecifiedSecurityDescriptor> {
    /// Creates a builder with no property specified
    pub fn new() -> (r: Self)
        ensures
            r@.maximum_state_size is None,
            r@.type_id is None,
    {
        StateCreation {
            lifetime: UnspecifiedLifetime::new(),
            scope: UnspecifiedScope::new(),
            maximum_state_size: None,
            security_descriptor: UnspecifiedSecurityDescriptor::new(),
            type_id: TypeId::none(),
        }
    }
}

impl<L, S, SD> StateCreation<L, S, SD> {
    /// Sets the lifetime, keeping the other properties
    pub fn lifetime(self, lifetime: CreatableStateLifetime) -> (r: StateCreation<CreatableStateLifetime, S, SD>)
        ensures
            r@.lifetime == lifetime,
            r@.scope == self@.scope,
            r@.maximum_state_size == self@.maximum_state_size,
            r@.security_descriptor == self@.security_descriptor,
            r@.type_id == self@.type_id,
    {
        StateCreation {
            lifetime,
            scope: self.scope,
            maximum_state_size: self.maximum_state_size,
            security_descriptor: self.security_descriptor,
            type_id: self.type_id,
        }
    }

    /// Sets the data scope, keeping the other properties
    pub fn scope(self, scope: DataScope) -> (r: StateCreation<L, DataScope, SD>)
        ensures
            r@.lifetime == self@.lifetime,
            r@.scope == scope,
            r@.maximum_state_size == self@.maximum_state_size,
            r@.security_descriptor == self@.security_descriptor,
            r@.type_id == self@.type_id,
    {
        StateCreation {
            lifetime: self.lifetime,
            scope,
            maximum_state_size: self.maximum_state_size,
            security_descriptor: self.security_descriptor,
            type_id: self.type_id,
        }
    }

    /// Sets the maximum size in bytes of the data, keeping the other properties
    pub fn maximum_state_size(self, maximum_state_size: usize) -> (r: StateCreation<L, S, SD>)
        ensures
            r@.lifetime == self@.lifetime,
            r@.scope == self@.scope,
            r@.maximum_state_size == Some(maximum_state_size),
            r@.security_descriptor == self@.security_descriptor,
            r@.type_id == self@.type_id,
    {
        StateCreation {
            lifetime: self.lifetime,
            scope: self.scope,
            maximum_state_size: Some(maximum_state_size),
            security_descriptor: self.security_descriptor,
            type_id: self.type_id,
        }
    }

    /// Sets the security descriptor, keeping the other properties
    pub fn security_descriptor<NewSD>(self, security_descriptor: NewSD) -> (r: StateCreation<L, S, NewSD>)
        ensures
            r@.lifetime == self@.lifetime,
            r@.scope == self@.scope,
            r@.maximum_state_size == self@.maximum_state_size,
            r@.security_descriptor == security_descriptor,
            r@.type_id == self@.type_id,
    {
        StateCreation {
            lifetime: self.lifetime,
            scope: self.scope,
            maximum_state_size: self.maximum_state_size,
            security_descriptor,
            type_id: self.type_id,
        }
    }

    /// Sets the type id to the given GUID, keeping the other properties
    pub fn type_id(self, type_id: GUID) -> (r: StateCreation<L, S, SD>)
        ensures
            r@.lifetime == self@.lifetime,
            r@.scope == self@.scope,
            r@.maximum_state_size == self@.maximum_state_size,
            r@.security_descriptor == self@.security_descriptor,
            r@.type_id == Some(type_id@),
    {
        StateCreation {
            lifetime: self.lifetime,
            scope: self.scope,
            maximum_state_size: self.maximum_state_size,
            security_descriptor: self.security_descriptor,
            type_id: TypeId::from_guid(type_id),
        }
    }
}

impl<SD> StateCreation<CreatableStateLifetime, DataScope, SD> {
    /// Returns what the Windows native API is to be asked to create the state with
    ///
    /// The maximum size defaults to [`MAXIMUM_STATE_SIZE`] and is passed on truncated to 32 bits.
    pub fn create_request(self) -> (r: CreateRequest<SD>)
        ensures
            r.name_lifetime == lifetime_code(general_lifetime(self@.lifetime)),
            r.data_scope == data_scope_code(self@.scope),
            r.persist_data == (if self@.lifetime == (CreatableStateLifetime::Permanent { persist_data: true }) {
                1u8
            } else {
                0u8
            }),
            r.type_id@ == self@.type_id,
            r.maximum_state_size == (match self@.maximum_state_size {
                Some(size) => size,
                None => MAXIMUM_STATE_SIZE,
            }) as u32,
            r.security_descriptor == self@.security_descriptor,
    {
        let lifetime: StateLifetime = StateLifetime::from(self.lifetime);
        let maximum_state_size: usize = match self.maximum_state_size {
            Some(size) => size,
            None => MAXIMUM_STATE_SIZE,
        };
        CreateRequest {
            name_lifetime: lifetime.code() as u32,
            data_scope: self.scope.code() as u32,
            persist_data: if self.lifetime.persist_data() {
                1
            } else {
                0
            },
            type_id: self.type_id,
            maximum_state_size: maximum_state_size as u32,
            security_descriptor: self.security_descriptor,
        }
    }
}

/// The numbers a state is created with: the lifetime codes of the Windows native API (permanent `1`, persistent `2`,
/// temporary `3`), the data scope codes (system `0`, session `1`, user `2`, process `3`, machine `4`, physical
/// machine `5`), data persisted only for a permanent lifetime asking for it, and a maximum size of `0x1000` bytes by
/// default
pub proof fn lemma_creation_codes(persist_data: bool)
    ensures
        lifetime_code(general_lifetime(CreatableStateLifetime::Permanent { persist_data })) == 1,
        lifetime_code(general_lifetime(CreatableStateLifetime::Persistent)) == 2,
        lifetime_code(general_lifetime(CreatableStateLifetime::Temporary)) == 3,
        data_scope_code(DataScope::System) == 0,
        data_scope_code(DataScope::Session) == 1,
        data_scope_code(DataScope::User) == 2,
        data_scope_code(DataScope::Process) == 3,
        data_scope_code(DataScope::Machine) == 4,
        data_scope_code(DataScope::PhysicalMachine) == 5,
        MAXIMUM_STATE_SIZE == 0x1000,
{
}

} // verus!
