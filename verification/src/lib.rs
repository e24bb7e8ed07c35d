//! Verified core of a library for the Windows Notification Facility (WNF)

pub mod admin_process;
pub mod bytes;
pub mod callback;
pub mod change_stamp;
pub mod data;
pub mod error;
pub mod manage;
pub mod predicate;
pub mod raw_state;
pub mod read;
pub mod state_name;
pub mod subscribe;
pub mod subscription;
pub mod system_runner;
pub mod type_id;
pub mod wide_string;
mod text;

pub use bytes::{AnyBitPattern, CheckedBitPattern, NoUninit};
pub use change_stamp::{WnfChangeStamp, WnfStampedData};
pub use data::{ChangeStamp, OpaqueData, StampedData};
pub use type_id::{TypeId, GUID};
pub use state_name::{
    DataScope, StateLifetime, StateName, StateNameDescriptor, StateNameDescriptorFromStateNameError,
    StateNameFromDescriptorError,
};
