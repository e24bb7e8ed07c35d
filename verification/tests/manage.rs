use wnf::manage::{CreatableStateLifetime, StateCreation, MAXIMUM_STATE_SIZE};
use wnf::{DataScope, StateLifetime, GUID};

#[test]
fn creatable_lifetimes() {
    assert!(CreatableStateLifetime::Permanent { persist_data: true }.persist_data());
    assert!(!CreatableStateLifetime::Permanent { persist_data: false }.persist_data());
    assert!(!CreatableStateLifetime::Persistent.persist_data());
    assert!(!CreatableStateLifetime::Temporary.persist_data());
    assert_eq!(StateLifetime::from(CreatableStateLifetime::Permanent { persist_data: true }), StateLifetime::Permanent);
    assert_eq!(StateLifetime::from(CreatableStateLifetime::Persistent), StateLifetime::Persistent);
    assert_eq!(StateLifetime::from(CreatableStateLifetime::Temporary), StateLifetime::Temporary);
}

#[test]
fn create_request_with_defaults() {
    let request = StateCreation::new()
        .lifetime(CreatableStateLifetime::Persistent)
        .scope(DataScope::User)
        .create_request();
    assert_eq!(request.name_lifetime, 2);
    assert_eq!(request.data_scope, 2);
    assert_eq!(request.persist_data, 0);
    assert_eq!(request.maximum_state_size as usize, MAXIMUM_STATE_SIZE);
    assert_eq!(request.type_id.guid(), None);
}

#[test]
fn create_request_with_all_properties() {
    let guid = GUID::from_u128(0x0011_2233_4455_6677_8899_AABB_CCDD_EEFF);
    let request = StateCreation::new()
        .maximum_state_size(0x800)
        .type_id(guid)
        .security_descriptor("everyone")
        .scope(DataScope::Session)
        .lifetime(CreatableStateLifetime::Permanent { persist_data: true })
        .create_request();
    assert_eq!(request.name_lifetime, 1);
    assert_eq!(request.data_scope, 1);
    assert_eq!(request.persist_data, 1);
    assert_eq!(request.maximum_state_size, 0x800);
    assert_eq!(request.type_id.guid().map(|g| g.to_u128()), Some(guid.to_u128()));
    assert_eq!(request.security_descriptor, "everyone");
}

#[test]
fn create_request_truncates_maximum_size_to_32_bits() {
    let request = StateCreation::new()
        .lifetime(CreatableStateLifetime::Temporary)
        .scope(DataScope::Machine)
        .maximum_state_size(0x1_0000_0010)
        .create_request();
    assert_eq!(request.maximum_state_size, 0x10);
}
