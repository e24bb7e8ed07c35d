use std::convert::TryFrom;

use wnf::{
    DataScope, StateLifetime, StateName, StateNameDescriptor, StateNameDescriptorFromStateNameError,
    StateNameFromDescriptorError,
};

fn sample_state_name() -> StateName {
    StateName::from_opaque_value(0x0D83_063E_A3BE_5075)
}

fn sample_descriptor() -> StateNameDescriptor {
    StateNameDescriptor {
        version: 1,
        lifetime: StateLifetime::WellKnown,
        data_scope: DataScope::System,
        is_permanent: false,
        unique_id: 0x0000_004A,
        owner_tag: 0x4C45_4853,
    }
}

#[test]
fn state_name_into_descriptor_success() {
    let result: Result<StateNameDescriptor, _> = StateNameDescriptor::try_from(sample_state_name());

    assert_eq!(result, Ok(sample_descriptor()));
}

#[test]
fn state_name_into_descriptor_invalid_data_scope() {
    let opaque_value = 0x0D83_063E_A3BE_51F5; // the sample state name with data scope set to 0x06

    let result: Result<StateNameDescriptor, _> =
        StateNameDescriptor::try_from(StateName::from_opaque_value(opaque_value));

    assert_eq!(result, Err(StateNameDescriptorFromStateNameError::InvalidDataScope(0x06)));
}

#[test]
fn descriptor_into_state_name_success() {
    let result: Result<StateName, _> = StateName::try_from(sample_descriptor());

    assert_eq!(result, Ok(sample_state_name()));
}

#[test]
fn descriptor_into_state_name_invalid_version() {
    let descriptor = StateNameDescriptor { version: 1 << 4, ..sample_descriptor() };

    let result: Result<StateName, _> = StateName::try_from(descriptor);

    assert_eq!(result, Err(StateNameFromDescriptorError::InvalidVersion(1 << 4)));
}

#[test]
fn descriptor_into_state_name_invalid_unique_id() {
    let descriptor = StateNameDescriptor { unique_id: 1 << 21, ..sample_descriptor() };

    let result: Result<StateName, _> = StateName::try_from(descriptor);

    assert_eq!(result, Err(StateNameFromDescriptorError::InvalidUniqueId(1 << 21)));
}

#[test]
fn state_name_display() {
    assert_eq!(sample_state_name().to_string(), "0x0D83063EA3BE5075");
}

#[test]
fn state_name_upper_hex() {
    assert_eq!(sample_state_name().to_upper_hex_string(), "0x0D83063EA3BE5075");
}

#[test]
fn state_name_lower_hex() {
    assert_eq!(sample_state_name().to_lower_hex_string(), "0x0d83063ea3be5075");
}

#[test]
fn state_name_octal() {
    assert_eq!(sample_state_name().to_octal_string(), "0o0066030143724357450165");
}

#[test]
fn state_name_binary() {
    assert_eq!(
        sample_state_name().to_binary_string(),
        "0b0000110110000011000001100011111010100011101111100101000001110101"
    );
}

#[test]
fn state_name_descriptor_round_trip_on_sample_values() {
    let descriptor = sample_descriptor();
    let state_name = StateName::from_descriptor(descriptor).unwrap();
    assert_eq!(state_name.to_descriptor(), Ok(descriptor));

    let state_name = sample_state_name();
    let descriptor = state_name.to_descriptor().unwrap();
    assert_eq!(StateName::from_descriptor(descriptor), Ok(state_name));
}

#[test]
fn state_name_converts_to_and_from_u64() {
    let value: u64 = sample_state_name().into();
    assert_eq!(value, 0x0D83_063E_A3BE_5075);
    assert_eq!(StateName::from(value), sample_state_name());
    assert_eq!(sample_state_name().opaque_value(), 0x0D83_063E_A3BE_5075);
}

#[test]
fn lifetime_and_data_scope_codes() {
    assert_eq!(StateLifetime::Temporary.code(), 3);
    assert_eq!(StateLifetime::from_u8(2), Some(StateLifetime::Persistent));
    assert_eq!(StateLifetime::from_u8(4), None);
    assert_eq!(DataScope::Machine.code(), 4);
    assert_eq!(DataScope::from_u8(5), Some(DataScope::PhysicalMachine));
    assert_eq!(DataScope::from_u8(6), None);
}

#[test]
fn state_name_compares_with_its_opaque_value() {
    assert!(sample_state_name() == 0x0D83_063E_A3BE_5075u64);
    assert!(sample_state_name() != 0u64);
    assert_eq!(StateName::from(0x0D83_063E_A3BE_5075u64), sample_state_name());
    assert_eq!(StateName::from_opaque_value(sample_state_name().opaque_value()), sample_state_name());
}

#[test]
fn descriptor_and_state_name_convert_back() {
    let descriptor = StateNameDescriptor::try_from(sample_state_name()).unwrap();
    assert_eq!(StateName::try_from(descriptor), Ok(sample_state_name()));
}
