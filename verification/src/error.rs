//! Errors of operations on states
//!
//! Errors reported by the Windows native API carry the `NTSTATUS` code of the failed call. Their messages show the
//! code as the corresponding `HRESULT`, which is the `NTSTATUS` code with the facility bit `0x10000000` set.

use vstd::prelude::*;

use crate::read::WnfReadError;
use crate::text::{decimal_digits, fixed_digits, push_decimal_digits, push_fixed_digits};

verus! {

/// The `HRESULT` corresponding to an `NTSTATUS` code
pub open spec fn hresult_of(status: i32) -> u32 {
    (status as u32) | 0x1000_0000u32
}

/// The message of an error reported by the Windows native API, after the given context
pub open spec fn windows_error_text(context: Seq<char>, status: i32) -> Seq<char> {
    context + ": Windows error code 0x"@ + fixed_digits(hresult_of(status) as nat, 16, 8, false)
}

/// Renders the message of an error reported by the Windows native API, after the given context
fn render_windows_error(context: &str, status: i32) -> (r: String)
    ensures
        r@ == windows_error_text(context@, status),
{
    let mut out = String::from_str(context);
    out.append(": Windows error code 0x");
    let code: u32 = (status as u32) | 0x1000_0000u32;
    push_fixed_digits(&mut out, code as u64, 16, 8, false);
    assert(out@ =~= windows_error_text(context@, status));
    out
}

/// An error creating a security descriptor
#[derive(Clone, Copy, Debug, PartialEq, Eq, Structural, Hash)]
pub enum SecurityCreateError {
    /// The Windows API reported an error with the given `NTSTATUS` code
    Windows(i32),
}

impl SecurityCreateError {
    /// Renders the message of this error
    pub fn to_string(&self) -> (r: String)
        ensures
            r@ == windows_error_text("failed to create security descriptor"@, self->Windows_0),
    {
        match *self {
            SecurityCreateError::Windows(status) => render_windows_error("failed to create security descriptor", status),
        }
    }
}

/// An error creating a state name
#[derive(Clone, Copy, Debug, PartialEq, Eq, Structural, Hash)]
pub enum WnfCreateError {
    /// Creating the security descriptor of the new state failed
    Security(SecurityCreateError),
    /// The Windows API reported an error with the given `NTSTATUS` code
    Windows(i32),
}

/// An error querying information about a state name
#[derive(Clone, Copy, Debug, PartialEq, Eq, Structural, Hash)]
pub enum WnfInfoError {
    /// The Windows API reported an error with the given `NTSTATUS` code
    Windows(i32),
}

impl WnfInfoError {
    /// Renders the message of this error
    pub fn to_string(&self) -> (r: String)
        ensures
            r@ == windows_error_text("failed to query WNF state information"@, self->Windows_0),
    {
        match *self {
            WnfInfoError::Windows(status) => render_windows_error("failed to query WNF state information", status),
        }
    }
}

/// An error deleting a state name
#[derive(Clone, Copy, Debug, PartialEq, Eq, Structural, Hash)]
pub enum WnfDeleteError {
    /// The Windows API reported an error with the given `NTSTATUS` code
    Windows(i32),
}

impl WnfDeleteError {
    /// Renders the message of this error
    pub fn to_string(&self) -> (r: String)
        ensures
            r@ == windows_error_text("failed to delete WNF state name"@, self->Windows_0),
    {
        match *self {
            WnfDeleteError::Windows(status) => render_windows_error("failed to delete WNF state name", status),
        }
    }
}

/// An error querying state data
#[derive(Clone, Copy, Debug, PartialEq, Eq, Structural, Hash)]
pub enum WnfQueryError {
    /// The data do not have the size of the type being queried
    WrongSize { expected: usize, actual: usize },
    /// The data are not a whole number of elements of the type being queried
    WrongSizeMultiple { expected_modulus: usize, actual: usize },
    /// The data do not form a valid bit pattern of the type being queried
    InvalidBitPattern,
    /// The Windows API reported an error with the given `NTSTATUS` code
    Windows(i32),
}

/// The message of a [`WnfQueryError`]
pub open spec fn query_error_text(error: WnfQueryError) -> Seq<char> {
    match error {
        WnfQueryError::WrongSize { expected, actual } =>
            "failed to query WNF state data: data has wrong size (expected "@ + decimal_digits(expected as nat)
                + ", got "@ + decimal_digits(actual as nat) + ")"@,
        WnfQueryError::WrongSizeMultiple { expected_modulus, actual } =>
            "failed to query WNF state data: data has wrong size (expected multiple of "@ + decimal_digits(
            expected_modulus as nat,
        ) + ", got "@ + decimal_digits(actual as nat) + ")"@,
        WnfQueryError::InvalidBitPattern => "failed to query WNF state data: data has invalid bit pattern"@,
        WnfQueryError::Windows(status) => windows_error_text("failed to query WNF state data"@, status),
    }
}

impl WnfQueryError {
    /// Renders the message of this error
    pub fn to_string(&self) -> (r: String)
        ensures
            r@ == query_error_text(*self),
    {
        match *self {
            WnfQueryError::WrongSize { expected, actual } => {
                let mut out = String::from_str(
                    "failed to query WNF state data: data has wrong size (expected ",
                );
                push_decimal_digits(&mut out, expected as u64);
                out.append(", got ");
                push_decimal_digits(&mut out, actual as u64);
                out.append(")");
                out
            },
            WnfQueryError::WrongSizeMultiple { expected_modulus, actual } => {
                let mut out = String::from_str(
                    "failed to query WNF state data: data has wrong size (expected multiple of ",
                );
                push_decimal_digits(&mut out, expected_modulus as u64);
                out.append(", got ");
                push_decimal_digits(&mut out, actual as u64);
                out.append(")");
                out
            },
            WnfQueryError::InvalidBitPattern => {
                String::from_str("failed to query WNF state data: data has invalid bit pattern")
            },
            WnfQueryError::Windows(status) => {
                render_windows_error("failed to query WNF state data", status)
            },
        }
    }
}

/// The query error corresponding to an error reading the queried data
pub open spec fn query_error_of(error: WnfReadError) -> WnfQueryError {
    match error {
        WnfReadError::WrongSize { expected, actual } => WnfQueryError::WrongSize { expected, actual },
        WnfReadError::WrongSizeMultiple { expected_modulus, actual } => WnfQueryError::WrongSizeMultiple {
            expected_modulus,
            actual,
        },
        WnfReadError::InvalidBitPattern => WnfQueryError::InvalidBitPattern,
    }
}

impl WnfQueryError {
    /// Converts an error reading the queried data into a query error
    pub fn from_read_error(error: WnfReadError) -> (r: Self)
        ensures
            r == query_error_of(error),
    {
        match error {
            WnfReadError::WrongSize { expected, actual } => WnfQueryError::WrongSize { expected, actual },
            WnfReadError::WrongSizeMultiple { expected_modulus, actual } => WnfQueryError::WrongSizeMultiple {
                expected_modulus,
                actual,
            },
            WnfReadError::InvalidBitPattern => WnfQueryError::InvalidBitPattern,
        }
    }
}

/// An error updating state data
#[derive(Clone, Copy, Debug, PartialEq, Eq, Structural, Hash)]
pub enum WnfUpdateError {
    /// The Windows API reported an error with the given `NTSTATUS` code
    Windows(i32),
}

impl WnfUpdateError {
    /// Renders the message of this error
    pub fn to_string(&self) -> (r: String)
        ensures
            r@ == windows_error_text("failed to update WNF state data"@, self->Windows_0),
    {
        match *self {
            WnfUpdateError::Windows(status) => render_windows_error("failed to update WNF state data", status),
        }
    }
}

/// An error returned by the transformation in an apply operation
#[derive(Clone, Copy, Debug, PartialEq, Eq)]
pub struct WnfTransformError<E>(pub E);

/// An error applying a transformation to state data
#[derive(Clone, Copy, Debug, PartialEq, Eq)]
pub enum WnfApplyError<E> {
    /// Querying the data failed
    Query(WnfQueryError),
    /// The transformation failed
    Transform(WnfTransformError<E>),
    /// Updating the data failed
    Update(WnfUpdateError),
}

/// An error subscribing to changes of state data
#[derive(Clone, Copy, Debug, PartialEq, Eq, Structural, Hash)]
pub enum WnfSubscribeError {
    /// The Windows API reported an error with the given `NTSTATUS` code
    Windows(i32),
}

impl WnfSubscribeError {
    /// Renders the message of this error
    pub fn to_string(&self) -> (r: String)
        ensures
            r@ == windows_error_text("failed to subscribe to WNF state change"@, self->Windows_0),
    {
        match *self {
            WnfSubscribeError::Windows(status) => render_windows_error("failed to subscribe to WNF state change", status),
        }
    }
}

/// An error unsubscribing from changes of state data
#[derive(Clone, Copy, Debug, PartialEq, Eq, Structural, Hash)]
pub enum WnfUnsubscribeError {
    /// The Windows API reported an error with the given `NTSTATUS` code
    Windows(i32),
}

impl WnfUnsubscribeError {
    /// Renders the message of this error
    pub fn to_string(&self) -> (r: String)
        ensures
            r@ == windows_error_text("failed to unsubscribe from WNF state change"@, self->Windows_0),
    {
        match *self {
            WnfUnsubscribeError::Windows(status) => render_windows_error("failed to unsubscribe from WNF state change", status),
        }
    }
}

} // verus!
