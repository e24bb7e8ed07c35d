//! State names and the properties encoded in their bits

use vstd::prelude::*;

use vstd::arithmetic::power::pow;

use crate::text::{fixed_digits, lemma_fixed_digits_positions, push_char, push_fixed_digits};

verus! {

/// The magic number for converting between opaque and transparent values of state names
pub const STATE_NAME_XOR_KEY: u64 = 0x41C6_4E6D_A3BC_0074;

/// The lifetime of a state
///
/// This property of a state controls at what point in time it is automatically deleted as well as if and how it is
/// persisted.
#[derive(Clone, Copy, Debug, PartialEq, Eq, Structural, Hash)]
pub enum StateLifetime {
    /// Lifetime of a "well-known" state, provisioned with the system; it lives forever
    WellKnown,
    /// Lifetime of a "permanent" state, never deleted automatically
    Permanent,
    /// Lifetime of a "persistent" (also known as "volatile") state, deleted on system reboot
    Persistent,
    /// Lifetime of a "temporary" state, deleted when the process it was created from exits
    Temporary,
}

/// The numeric code of a lifetime
pub open spec fn lifetime_code(lifetime: StateLifetime) -> u8 {
    match lifetime {
        StateLifetime::WellKnown => 0,
        StateLifetime::Permanent => 1,
        StateLifetime::Persistent => 2,
        StateLifetime::Temporary => 3,
    }
}

/// The lifetime with the given numeric code, if any
pub open spec fn lifetime_from_code(code: u8) -> Option<StateLifetime> {
    if code == 0 {
        Some(StateLifetime::WellKnown)
    } else if code == 1 {
        Some(StateLifetime::Permanent)
    } else if code == 2 {
        Some(StateLifetime::Persistent)
    } else if code == 3 {
        Some(StateLifetime::Temporary)
    } else {
        None
    }
}

impl StateLifetime {
    /// Returns the numeric code of this lifetime
    pub fn code(self) -> (r: u8)
        ensures
            r == lifetime_code(self),
    {
        match self {
            StateLifetime::WellKnown => 0,
            StateLifetime::Permanent => 1,
            StateLifetime::Persistent => 2,
            StateLifetime::Temporary => 3,
        }
    }

    /// Returns the lifetime with the given numeric code, or `None` if there is none
    pub fn from_u8(code: u8) -> (r: Option<Self>)
        ensures
            r == lifetime_from_code(code),
    {
        if code == 0 {
            Some(StateLifetime::WellKnown)
        } else if code == 1 {
            Some(StateLifetime::Permanent)
        } else if code == 2 {
            Some(StateLifetime::Persistent)
        } else if code == 3 {
            Some(StateLifetime::Temporary)
        } else {
            None
        }
    }
}

/// The data scope of a state
///
/// This property of a state controls whether it maintains multiple instances of its data that are scoped in different
/// ways.
#[derive(Clone, Copy, Debug, PartialEq, Eq, Structural, Hash)]
pub enum DataScope {
    /// "System" data scope
    System,
    /// "Session" data scope
    Session,
    /// "User" data scope
    User,
    /// "Process" data scope
    Process,
    /// "Machine" data scope, a good default choice if you don't care about data scope
    Machine,
    /// "Physical Machine" data scope
    PhysicalMachine,
}

/// The numeric code of a data scope
pub open spec fn data_scope_code(scope: DataScope) -> u8 {
    match scope {
        DataScope::System => 0,
        DataScope::Session => 1,
        DataScope::User => 2,
        DataScope::Process => 3,
        DataScope::Machine => 4,
        DataScope::PhysicalMachine => 5,
    }
}

/// The data scope with the given numeric code, if any
pub open spec fn data_scope_from_code(code: u8) -> Option<DataScope> {
    if code == 0 {
        Some(DataScope::System)
    } else if code == 1 {
        Some(DataScope::Session)
    } else if code == 2 {
        Some(DataScope::User)
    } else if code == 3 {
        Some(DataScope::Process)
    } else if code == 4 {
        Some(DataScope::Machine)
    } else if code == 5 {
        Some(DataScope::PhysicalMachine)
    } else {
        None
    }
}

impl DataScope {
    /// Returns the numeric code of this data scope
    pub fn code(self) -> (r: u8)
        ensures
            r == data_scope_code(self),
    {
        match self {
            DataScope::System => 0,
            DataScope::Session => 1,
            DataScope::User => 2,
            DataScope::Process => 3,
            DataScope::Machine => 4,
            DataScope::PhysicalMachine => 5,
        }
    }

    /// Returns the data scope with the given numeric code, or `None` if there is none
    pub fn from_u8(code: u8) -> (r: Option<Self>)
        ensures
            r == data_scope_from_code(code),
    {
        if code == 0 {
            Some(DataScope::System)
        } else if code == 1 {
            Some(DataScope::Session)
        } else if code == 2 {
            Some(DataScope::User)
        } else if code == 3 {
            Some(DataScope::Process)
        } else if code == 4 {
            Some(DataScope::Machine)
        } else if code == 5 {
            Some(DataScope::PhysicalMachine)
        } else {
            None
        }
    }
}

/// The descriptor of a state name
///
/// This contains the properties of a [`StateName`] that are encoded in the bits of its transparent value.
#[derive(Clone, Copy, Debug, PartialEq, Eq, Structural, Hash)]
pub struct StateNameDescriptor {
    /// WNF version number, currently always `1`
    pub version: u8,
    /// Lifetime of the state name
    pub lifetime: StateLifetime,
    /// Data scope of the state name
    pub data_scope: DataScope,
    /// Whether the state data (not the state name itself) are persisted across system reboots
    pub is_permanent: bool,
    /// Unique sequence number of the state name
    pub unique_id: u32,
    /// Owner tag of the state name
    pub owner_tag: u32,
}

/// A state name
///
/// A state name is represented by its "opaque value", a 64-bit integer. XOR'ing it with [`STATE_NAME_XOR_KEY`] gives
/// the "transparent value", whose bits encode the properties described by a [`StateNameDescriptor`].
#[derive(Clone, Copy, Debug, PartialEq, Eq, Structural, Hash)]
pub struct StateName {
    opaque_value: u64,
}

impl View for StateName {
    type V = u64;

    /// The opaque value of the state name
    closed spec fn view(&self) -> u64 {
        self.opaque_value
    }
}

/// The upper-case hexadecimal rendering of a state name: `0x` followed by 16 digits
pub open spec fn upper_hex_text(opaque_value: u64) -> Seq<char> {
    seq!['0', 'x'] + fixed_digits(opaque_value as nat, 16, 16, true)
}

/// The lower-case hexadecimal rendering of a state name: `0x` followed by 16 digits
pub open spec fn lower_hex_text(opaque_value: u64) -> Seq<char> {
    seq!['0', 'x'] + fixed_digits(opaque_value as nat, 16, 16, false)
}

/// The octal rendering of a state name: `0o` followed by 22 digits
pub open spec fn octal_text(opaque_value: u64) -> Seq<char> {
    seq!['0', 'o'] + fixed_digits(opaque_value as nat, 8, 22, false)
}

/// The binary rendering of a state name: `0b` followed by 64 digits
pub open spec fn binary_text(opaque_value: u64) -> Seq<char> {
    seq!['0', 'b'] + fixed_digits(opaque_value as nat, 2, 64, false)
}

/// Renders `v` as `0` and `marker` followed by `n` digits in the given base
fn render_prefixed(v: u64, marker: char, base: u64, n: usize, upper: bool) -> (r: String)
    requires
        2 <= base <= 16,
    ensures
        r@ == seq!['0', marker] + fixed_digits(v as nat, base as nat, n as nat, upper),
{
    let mut out = String::new();
    push_char(&mut out, '0');
    push_char(&mut out, marker);
    push_fixed_digits(&mut out, v, base, n, upper);
    assert(out@ =~= seq!['0', marker] + fixed_digits(v as nat, base as nat, n as nat, upper));
    out
}

/// An error converting a [`StateNameDescriptor`] into a [`StateName`]
#[derive(Clone, Copy, Debug, PartialEq, Eq, Structural, Hash)]
pub enum StateNameFromDescriptorError {
    /// The version is invalid (must be less than `2^4`)
    InvalidVersion(u8),
    /// The unique id is invalid (must be less than `2^21`)
    InvalidUniqueId(u32),
}

/// An error converting a [`StateName`] into a [`StateNameDescriptor`]
#[derive(Clone, Copy, Debug, PartialEq, Eq, Structural, Hash)]
pub enum StateNameDescriptorFromStateNameError {
    /// The data scope encoded in the state name is invalid (must be in `0..=5`)
    InvalidDataScope(u8),
}

/// The transparent value whose bits encode the given descriptor
///
/// Bits `0..4` hold the version, bits `4..6` the lifetime, bits `6..10` the data scope, bit `10` the permanence flag,
/// bits `11..32` the unique id and bits `32..64` the owner tag.
pub open spec fn transparent_value_of(d: StateNameDescriptor) -> int {
    d.version as int
        + lifetime_code(d.lifetime) as int * 0x10
        + data_scope_code(d.data_scope) as int * 0x40
        + (if d.is_permanent { 0x400int } else { 0int })
        + d.unique_id as int * 0x800
        + d.owner_tag as int * 0x1_0000_0000
}

/// The result of converting a descriptor into a state name
pub open spec fn state_name_from_descriptor(d: StateNameDescriptor) -> Result<
    u64,
    StateNameFromDescriptorError,
> {
    if d.version >= 0x10 {
        Err(StateNameFromDescriptorError::InvalidVersion(d.version))
    } else if d.unique_id >= 0x20_0000 {
        Err(StateNameFromDescriptorError::InvalidUniqueId(d.unique_id))
    } else {
        Ok((transparent_value_of(d) as u64) ^ STATE_NAME_XOR_KEY)
    }
}

/// The data scope code encoded in a transparent value
pub open spec fn scope_bits(t: u64) -> u8 {
    ((t >> 6u64) & 0xF) as u8
}

/// The descriptor encoded in the transparent value `t`, given that its data scope code is valid
pub open spec fn descriptor_of_transparent(t: u64) -> StateNameDescriptor {
    StateNameDescriptor {
        version: (t & 0xF) as u8,
        lifetime: lifetime_from_code(((t >> 4u64) & 0x3) as u8).unwrap(),
        data_scope: data_scope_from_code(scope_bits(t)).unwrap(),
        is_permanent: t & 0x400 != 0,
        unique_id: ((t >> 11u64) & 0x1F_FFFF) as u32,
        owner_tag: (t >> 32u64) as u32,
    }
}

/// The result of converting the state name with the given opaque value into a descriptor
pub open spec fn descriptor_from_state_name(opaque_value: u64) -> Result<
    StateNameDescriptor,
    StateNameDescriptorFromStateNameError,
> {
    let t = opaque_value ^ STATE_NAME_XOR_KEY;
    if scope_bits(t) > 5 {
        Err(StateNameDescriptorFromStateNameError::InvalidDataScope(scope_bits(t)))
    } else {
        Ok(descriptor_of_transparent(t))
    }
}

impl StateName {
    /// Creates a [`StateName`] from the given opaque value
    pub fn from_opaque_value(opaque_value: u64) -> (r: Self)
        ensures
            r@ == opaque_value,
    {
        Self { opaque_value }
    }

    /// Returns the opaque value of this [`StateName`]
    pub fn opaque_value(self) -> (r: u64)
        ensures
            r == self@,
    {
        self.opaque_value
    }

    /// Renders this state name as its opaque value in upper-case hexadecimal, e.g. `0x0D83063EA3BE5075`
    pub fn to_string(&self) -> (r: String)
        ensures
            r@ == upper_hex_text(self@),
    {
        self.to_upper_hex_string()
    }

    /// Renders the opaque value in upper-case hexadecimal with a `0x` prefix and 16 digits
    pub fn to_upper_hex_string(&self) -> (r: String)
        ensures
            r@ == upper_hex_text(self@),
    {
        render_prefixed(self.opaque_value, 'x', 16, 16, true)
    }

    /// Renders the opaque value in lower-case hexadecimal with a `0x` prefix and 16 digits
    pub fn to_lower_hex_string(&self) -> (r: String)
        ensures
            r@ == lower_hex_text(self@),
    {
        render_prefixed(self.opaque_value, 'x', 16, 16, false)
    }

    /// Renders the opaque value in octal with a `0o` prefix and 22 digits
    pub fn to_octal_string(&self) -> (r: String)
        ensures
            r@ == octal_text(self@),
    {
        render_prefixed(self.opaque_value, 'o', 8, 22, false)
    }

    /// Renders the opaque value in binary with a `0b` prefix and 64 digits
    pub fn to_binary_string(&self) -> (r: String)
        ensures
            r@ == binary_text(self@),
    {
        render_prefixed(self.opaque_value, 'b', 2, 64, false)
    }

    /// Converts a descriptor into the state name whose transparent value encodes it
    pub fn from_descriptor(descriptor: StateNameDescriptor) -> (r: Result<
        StateName,
        StateNameFromDescriptorError,
    >)
        ensures
            r matches Ok(n) ==> state_name_from_descriptor(descriptor) == Ok::<
                u64,
                StateNameFromDescriptorError,
            >(n@),
            r matches Err(e) ==> state_name_from_descriptor(descriptor) == Err::<
                u64,
                StateNameFromDescriptorError,
            >(e),
    {
        if descriptor.version >= 0x10 {
            return Err(StateNameFromDescriptorError::InvalidVersion(descriptor.version));
        }
        if descriptor.unique_id >= 0x20_0000 {
            return Err(StateNameFromDescriptorError::InvalidUniqueId(descriptor.unique_id));
        }
        let version = descriptor.version as u64;
        let lifetime = descriptor.lifetime.code() as u64;
        let scope = descriptor.data_scope.code() as u64;
        let permanent: u64 = if descriptor.is_permanent { 1 } else { 0 };
        let unique_id = descriptor.unique_id as u64;
        let owner_tag = descriptor.owner_tag as u64;
        assert((lifetime << 4u64) == lifetime * 0x10 && (scope << 6u64) == scope * 0x40 && (permanent
            << 10u64) == permanent * 0x400 && (unique_id << 11u64) == unique_id * 0x800 && (owner_tag
            << 32u64) == owner_tag * 0x1_0000_0000) by (bit_vector)
            requires
                lifetime < 4,
                scope < 16,
                permanent < 2,
                unique_id < 0x20_0000,
                owner_tag < 0x1_0000_0000,
        ;
        let transparent_value = version + (lifetime << 4) + (scope << 6) + (permanent << 10) + (
        unique_id << 11) + (owner_tag << 32);
        Ok(StateName { opaque_value: transparent_value ^ STATE_NAME_XOR_KEY })
    }

    /// Converts this state name into the descriptor encoded in its transparent value
    pub fn to_descriptor(self) -> (r: Result<
        StateNameDescriptor,
        StateNameDescriptorFromStateNameError,
    >)
        ensures
            r == descriptor_from_state_name(self@),
    {
        let t = self.opaque_value ^ STATE_NAME_XOR_KEY;
        assert(((t >> 4u64) & 0x3) < 4 && ((t >> 6u64) & 0xF) < 16 && (t & 0xF) < 16) by (bit_vector);
        let lifetime_value = ((t >> 4) & 0x3) as u8;
        let data_scope_value = ((t >> 6) & 0xF) as u8;
        let lifetime = match StateLifetime::from_u8(lifetime_value) {
            Some(lifetime) => lifetime,
            None => StateLifetime::WellKnown,
        };
        let data_scope = match DataScope::from_u8(data_scope_value) {
            Some(scope) => scope,
            None => {
                return Err(StateNameDescriptorFromStateNameError::InvalidDataScope(data_scope_value));
            },
        };
        Ok(StateNameDescriptor {
            version: (t & 0xF) as u8,
            lifetime,
            data_scope,
            is_permanent: t & 0x400 != 0,
            unique_id: ((t >> 11) & 0x1F_FFFF) as u32,
            owner_tag: (t >> 32) as u32,
        })
    }
}


impl vstd::std_specs::convert::TryFromSpecImpl<StateNameDescriptor> for StateName {
    open spec fn obeys_try_from_spec() -> bool {
        true
    }

    closed spec fn try_from_spec(descriptor: StateNameDescriptor) -> Result<Self, Self::Error> {
        match state_name_from_descriptor(descriptor) {
            Ok(v) => Ok(StateName { opaque_value: v }),
            Err(e) => Err(e),
        }
    }
}

impl TryFrom<StateNameDescriptor> for StateName {
    type Error = StateNameFromDescriptorError;

    fn try_from(descriptor: StateNameDescriptor) -> (r: Result<Self, Self::Error>)
        ensures
            r matches Ok(n) ==> state_name_from_descriptor(descriptor) == Ok::<
                u64,
                StateNameFromDescriptorError,
            >(n@),
            r matches Err(e) ==> state_name_from_descriptor(descriptor) == Err::<
                u64,
                StateNameFromDescriptorError,
            >(e),
    {
        Self::from_descriptor(descriptor)
    }
}

impl vstd::std_specs::convert::TryFromSpecImpl<StateName> for StateNameDescriptor {
    open spec fn obeys_try_from_spec() -> bool {
        true
    }

    open spec fn try_from_spec(state_name: StateName) -> Result<Self, Self::Error> {
        descriptor_from_state_name(state_name@)
    }
}

impl TryFrom<StateName> for StateNameDescriptor {
    type Error = StateNameDescriptorFromStateNameError;

    fn try_from(state_name: StateName) -> (r: Result<Self, Self::Error>) {
        state_name.to_descriptor()
    }
}

impl vstd::std_specs::convert::FromSpecImpl<u64> for StateName {
    open spec fn obeys_from_spec() -> bool {
        true
    }

    closed spec fn from_spec(opaque_value: u64) -> Self {
        StateName { opaque_value }
    }
}

impl From<u64> for StateName {
    fn from(opaque_value: u64) -> (r: Self)
        ensures
            r@ == opaque_value,
    {
        Self::from_opaque_value(opaque_value)
    }
}

impl vstd::std_specs::convert::FromSpecImpl<StateName> for u64 {
    open spec fn obeys_from_spec() -> bool {
        true
    }

    open spec fn from_spec(state_name: StateName) -> Self {
        state_name@
    }
}

impl From<StateName> for u64 {
    fn from(state_name: StateName) -> (r: Self) {
        state_name.opaque_value()
    }
}

impl PartialEq<u64> for StateName {
    fn eq(&self, other: &u64) -> (r: bool) {
        self.opaque_value == *other
    }
}

impl vstd::std_specs::cmp::PartialEqSpecImpl<u64> for StateName {
    open spec fn obeys_eq_spec() -> bool {
        true
    }

    /// A state name equals an opaque value when it has that opaque value
    open spec fn eq_spec(&self, other: &u64) -> bool {
        self@ == *other
    }
}

/// A state name is determined by its opaque value
pub proof fn lemma_state_name_view_identifies(a: StateName, b: StateName)
    ensures
        a@ == b@ <==> a == b,
{
}

/// Converting a descriptor into a state name gives the state name whose opaque value encodes the descriptor, or the
/// error of the encoding
pub proof fn lemma_state_name_try_from_descriptor(descriptor: StateNameDescriptor)
    ensures
        match state_name_from_descriptor(descriptor) {
            Ok(v) => <StateName as vstd::std_specs::convert::TryFromSpec<StateNameDescriptor>>::try_from_spec(
                descriptor,
            ) matches Ok(n) && n@ == v,
            Err(e) => <StateName as vstd::std_specs::convert::TryFromSpec<StateNameDescriptor>>::try_from_spec(
                descriptor,
            ) == Err::<StateName, StateNameFromDescriptorError>(e),
        },
{
}

/// Converting an opaque value into a state name keeps the value
pub proof fn lemma_state_name_from_u64(opaque_value: u64)
    ensures
        <StateName as vstd::std_specs::convert::FromSpec<u64>>::from_spec(opaque_value)@ == opaque_value,
{
}

/// The numeric codes of the lifetimes are the ones of the Windows native API: well-known `0`, permanent `1`,
/// persistent `2` and temporary `3`
pub proof fn lemma_lifetime_code_values()
    ensures
        lifetime_code(StateLifetime::WellKnown) == 0,
        lifetime_code(StateLifetime::Permanent) == 1,
        lifetime_code(StateLifetime::Persistent) == 2,
        lifetime_code(StateLifetime::Temporary) == 3,
        lifetime_from_code(0) == Some(StateLifetime::WellKnown),
        lifetime_from_code(1) == Some(StateLifetime::Permanent),
        lifetime_from_code(2) == Some(StateLifetime::Persistent),
        lifetime_from_code(3) == Some(StateLifetime::Temporary),
        forall|code: u8| code > 3 ==> #[trigger] lifetime_from_code(code) is None,
{
}

/// The numeric codes of the data scopes are the ones of the Windows native API: system `0`, session `1`, user `2`,
/// process `3`, machine `4` and physical machine `5`
pub proof fn lemma_data_scope_code_values()
    ensures
        data_scope_code(DataScope::System) == 0,
        data_scope_code(DataScope::Session) == 1,
        data_scope_code(DataScope::User) == 2,
        data_scope_code(DataScope::Process) == 3,
        data_scope_code(DataScope::Machine) == 4,
        data_scope_code(DataScope::PhysicalMachine) == 5,
        data_scope_from_code(0) == Some(DataScope::System),
        data_scope_from_code(1) == Some(DataScope::Session),
        data_scope_from_code(2) == Some(DataScope::User),
        data_scope_from_code(3) == Some(DataScope::Process),
        data_scope_from_code(4) == Some(DataScope::Machine),
        data_scope_from_code(5) == Some(DataScope::PhysicalMachine),
        forall|code: u8| code > 5 ==> #[trigger] data_scope_from_code(code) is None,
{
}

/// Where each property of a descriptor is stored in the state name
///
/// A descriptor whose version is at least `2^4` or whose unique id is at least `2^21` is refused with that value.
/// Otherwise, the state name's opaque value XOR `0x41C64E6DA3BC0074` (its transparent value) holds the version in
/// bits `0..4`, the lifetime's code in bits `4..6`, the data scope's code in bits `6..10`, the permanence flag in bit
/// `10`, the unique id in bits `11..32` and the owner tag in bits `32..64`.
pub proof fn lemma_state_name_layout(d: StateNameDescriptor)
    ensures
        d.version >= 0x10 ==> state_name_from_descriptor(d) == Err::<u64, StateNameFromDescriptorError>(
            StateNameFromDescriptorError::InvalidVersion(d.version),
        ),
        d.version < 0x10 && d.unique_id >= 0x20_0000 ==> state_name_from_descriptor(d) == Err::<
            u64,
            StateNameFromDescriptorError,
        >(StateNameFromDescriptorError::InvalidUniqueId(d.unique_id)),
        d.version < 0x10 && d.unique_id < 0x20_0000 ==> (state_name_from_descriptor(d) matches Ok(v) && {
            let t = v ^ 0x41C6_4E6D_A3BC_0074u64;
            &&& t & 0xF == d.version
            &&& (t >> 4u64) & 0x3 == lifetime_code(d.lifetime)
            &&& (t >> 6u64) & 0xF == data_scope_code(d.data_scope)
            &&& ((t >> 10u64) & 0x1 == 1) == d.is_permanent
            &&& (t >> 11u64) & 0x1F_FFFF == d.unique_id
            &&& t >> 32u64 == d.owner_tag
        }),
{
    if d.version < 0x10 && d.unique_id < 0x20_0000 {
        lemma_descriptor_round_trip(d);
        let v = state_name_from_descriptor(d)->Ok_0;
        lemma_descriptor_layout(v);
    }
}

/// Which properties a state name's descriptor has, read from the bits of its transparent value (its opaque value
/// XOR `0x41C64E6DA3BC0074`)
///
/// A data scope code in bits `6..10` above `5` is refused with that code. Otherwise, the descriptor's version is
/// bits `0..4`, its lifetime is the one whose code is bits `4..6`, its data scope the one whose code is bits `6..10`,
/// it is permanent when bit `10` is set, its unique id is bits `11..32` and its owner tag bits `32..64`.
pub proof fn lemma_descriptor_layout(opaque_value: u64)
    ensures
        ({
            let t = opaque_value ^ 0x41C6_4E6D_A3BC_0074u64;
            &&& (t >> 6u64) & 0xF > 5 ==> descriptor_from_state_name(opaque_value) == Err::<
                StateNameDescriptor,
                StateNameDescriptorFromStateNameError,
            >(StateNameDescriptorFromStateNameError::InvalidDataScope(((t >> 6u64) & 0xF) as u8))
            &&& (t >> 6u64) & 0xF <= 5 ==> (descriptor_from_state_name(opaque_value) matches Ok(d) && {
                &&& d.version == t & 0xF
                &&& lifetime_code(d.lifetime) == (t >> 4u64) & 0x3
                &&& data_scope_code(d.data_scope) == (t >> 6u64) & 0xF
                &&& d.is_permanent == ((t >> 10u64) & 0x1 == 1)
                &&& d.unique_id == (t >> 11u64) & 0x1F_FFFF
                &&& d.owner_tag == t >> 32u64
            })
        }),
{
    let t = opaque_value ^ STATE_NAME_XOR_KEY;
    assert(t & 0xF < 16 && (t >> 4u64) & 0x3 < 4 && (t >> 6u64) & 0xF < 16 && (t >> 11u64) & 0x1F_FFFF
        < 0x20_0000 && t >> 32u64 < 0x1_0000_0000 && ((t & 0x400 != 0) == ((t >> 10u64) & 0x1 == 1)))
        by (bit_vector);
    lemma_lifetime_code(StateLifetime::WellKnown, ((t >> 4u64) & 0x3) as u8);
    lemma_data_scope_code(DataScope::System, ((t >> 6u64) & 0xF) as u8);
}

/// The renderings of a state name give the digits of its opaque value, most significant first, after a prefix
///
/// Upper-case hexadecimal is `0x` and 16 digits `0`-`9`, `A`-`F`; lower-case hexadecimal is `0x` and 16 digits
/// `0`-`9`, `a`-`f`; octal is `0o` and 22 digits; binary is `0b` and 64 digits.
pub proof fn lemma_state_name_text_digits(v: u64)
    ensures
        upper_hex_text(v).len() == 18 && upper_hex_text(v)[0] == '0' && upper_hex_text(v)[1] == 'x',
        forall|i: int|
            2 <= i < 18 ==> {
                let d = (v as int / pow(16, (17 - i) as nat)) % 16;
                #[trigger] upper_hex_text(v)[i] as u32 == if d < 10 { 48 + d } else { 55 + d }
            },
        lower_hex_text(v).len() == 18 && lower_hex_text(v)[0] == '0' && lower_hex_text(v)[1] == 'x',
        forall|i: int|
            2 <= i < 18 ==> {
                let d = (v as int / pow(16, (17 - i) as nat)) % 16;
                #[trigger] lower_hex_text(v)[i] as u32 == if d < 10 { 48 + d } else { 87 + d }
            },
        octal_text(v).len() == 24 && octal_text(v)[0] == '0' && octal_text(v)[1] == 'o',
        forall|i: int|
            2 <= i < 24 ==> #[trigger] octal_text(v)[i] as u32 == 48 + (v as int / pow(8, (23 - i) as nat)) % 8,
        binary_text(v).len() == 66 && binary_text(v)[0] == '0' && binary_text(v)[1] == 'b',
        forall|i: int|
            2 <= i < 66 ==> #[trigger] binary_text(v)[i] as u32 == 48 + (v as int / pow(2, (65 - i) as nat)) % 2,
{
    lemma_fixed_digits_positions(v as nat, 16, 16, true);
    lemma_fixed_digits_positions(v as nat, 16, 16, false);
    lemma_fixed_digits_positions(v as nat, 8, 22, false);
    lemma_fixed_digits_positions(v as nat, 2, 64, false);
    assert forall|i: int| 2 <= i < 18 implies {
        let d = (v as int / pow(16, (17 - i) as nat)) % 16;
        #[trigger] upper_hex_text(v)[i] as u32 == if d < 10 { 48 + d } else { 55 + d }
    } by {
        assert(upper_hex_text(v)[i] == fixed_digits(v as nat, 16, 16, true)[i - 2]);
    }
    assert forall|i: int| 2 <= i < 18 implies {
        let d = (v as int / pow(16, (17 - i) as nat)) % 16;
        #[trigger] lower_hex_text(v)[i] as u32 == if d < 10 { 48 + d } else { 87 + d }
    } by {
        assert(lower_hex_text(v)[i] == fixed_digits(v as nat, 16, 16, false)[i - 2]);
    }
    assert forall|i: int| 2 <= i < 24 implies #[trigger] octal_text(v)[i] as u32 == 48 + (v as int / pow(
        8,
        (23 - i) as nat,
    )) % 8 by {
        assert(octal_text(v)[i] == fixed_digits(v as nat, 8, 22, false)[i - 2]);
    }
    assert forall|i: int| 2 <= i < 66 implies #[trigger] binary_text(v)[i] as u32 == 48 + (v as int / pow(
        2,
        (65 - i) as nat,
    )) % 2 by {
        assert(binary_text(v)[i] == fixed_digits(v as nat, 2, 64, false)[i - 2]);
    }
}

/// Lifetime codes and lifetimes correspond one to one
pub proof fn lemma_lifetime_code(lifetime: StateLifetime, code: u8)
    ensures
        lifetime_from_code(lifetime_code(lifetime)) == Some(lifetime),
        code < 4 ==> (lifetime_from_code(code) matches Some(l) && lifetime_code(l) == code),
        code >= 4 ==> lifetime_from_code(code) is None,
{
}

/// Data scope codes and data scopes correspond one to one
pub proof fn lemma_data_scope_code(scope: DataScope, code: u8)
    ensures
        data_scope_from_code(data_scope_code(scope)) == Some(scope),
        code <= 5 ==> (data_scope_from_code(code) matches Some(s) && data_scope_code(s) == code),
        code > 5 ==> data_scope_from_code(code) is None,
{
}

/// Encoding a valid descriptor as a state name and decoding that state name gives back the descriptor
///
/// A descriptor is valid when its version is less than `2^4` and its unique id is less than `2^21`.
pub proof fn lemma_descriptor_round_trip(d: StateNameDescriptor)
    requires
        d.version < 0x10,
        d.unique_id < 0x20_0000,
    ensures
        state_name_from_descriptor(d) matches Ok(v) && descriptor_from_state_name(v) == Ok::<
            StateNameDescriptor,
            StateNameDescriptorFromStateNameError,
        >(d),
{
    let v = d.version as u64;
    let l = lifetime_code(d.lifetime) as u64;
    let s = data_scope_code(d.data_scope) as u64;
    let p: u64 = if d.is_permanent { 1 } else { 0 };
    let u = d.unique_id as u64;
    let o = d.owner_tag as u64;
    let t: u64 = (v + l * 0x10 + s * 0x40 + p * 0x400 + u * 0x800 + o * 0x1_0000_0000) as u64;
    assert(t == transparent_value_of(d));
    let k = STATE_NAME_XOR_KEY;
    assert((t ^ k) ^ k == t) by (bit_vector);
    assert({
        &&& t & 0xF == v
        &&& (t >> 4u64) & 0x3 == l
        &&& (t >> 6u64) & 0xF == s
        &&& (t & 0x400 != 0) == (p == 1)
        &&& (t >> 11u64) & 0x1F_FFFF == u
        &&& t >> 32u64 == o
    }) by (bit_vector)
        requires
            v < 0x10,
            l < 4,
            s < 6,
            p < 2,
            u < 0x20_0000,
            o < 0x1_0000_0000,
            t == v + l * 0x10 + s * 0x40 + p * 0x400 + u * 0x800 + o * 0x1_0000_0000,
    ;
    lemma_lifetime_code(d.lifetime, 0);
    lemma_data_scope_code(d.data_scope, 0);
}

/// Decoding a state name into a descriptor and encoding that descriptor gives back the state name
///
/// This holds for every state name whose data scope bits hold a valid data scope code.
pub proof fn lemma_state_name_round_trip(opaque_value: u64)
    requires
        descriptor_from_state_name(opaque_value) is Ok,
    ensures
        descriptor_from_state_name(opaque_value) matches Ok(d) && state_name_from_descriptor(d)
            == Ok::<u64, StateNameFromDescriptorError>(opaque_value),
{
    let k = STATE_NAME_XOR_KEY;
    let t = opaque_value ^ k;
    let d = descriptor_of_transparent(t);
    let v = t & 0xF;
    let l = (t >> 4u64) & 0x3;
    let s = (t >> 6u64) & 0xF;
    let p: u64 = if t & 0x400 != 0 { 1 } else { 0 };
    let u = (t >> 11u64) & 0x1F_FFFF;
    let o = t >> 32u64;
    assert(v < 0x10 && l < 4 && s < 0x10 && u < 0x20_0000 && o < 0x1_0000_0000) by (bit_vector)
        requires
            v == t & 0xF,
            l == (t >> 4u64) & 0x3,
            s == (t >> 6u64) & 0xF,
            u == (t >> 11u64) & 0x1F_FFFF,
            o == t >> 32u64,
    ;
    assert(t == v + l * 0x10 + s * 0x40 + p * 0x400 + u * 0x800 + o * 0x1_0000_0000) by (bit_vector)
        requires
            v == t & 0xF,
            l == (t >> 4u64) & 0x3,
            s == (t >> 6u64) & 0xF,
            p == (if t & 0x400 != 0 { 1u64 } else { 0u64 }),
            u == (t >> 11u64) & 0x1F_FFFF,
            o == t >> 32u64,
    ;
    assert((opaque_value ^ k) ^ k == opaque_value) by (bit_vector);
    lemma_lifetime_code(StateLifetime::WellKnown, l as u8);
    lemma_data_scope_code(DataScope::System, s as u8);
    assert(transparent_value_of(d) == t);
}

} // verus!
