//! Status handling for the embedded companion binding.

use vstd::prelude::*;

verus! {

/// Opaque handle of an embedded companion, only ever seen behind a pointer.
pub struct IdbCompanionHandle {
    _private: [u8; 0],
}

/// Opaque handle of a pending request, only ever seen behind a pointer.
pub struct IdbRequestHandle {
    _private: [u8; 0],
}

/// A status reported by the embedded companion.
#[derive(Debug, Clone, Copy, PartialEq, Eq, Structural)]
pub enum IdbError {
    Success,
    NotInitialized,
    InvalidParameter,
    DeviceNotFound,
    SimulatorNotRunning,
    OperationFailed,
    Timeout,
    OutOfMemory,
    NotSupported,
}

/// The kind of target the companion connects to.
#[derive(Debug, Clone, Copy, PartialEq, Eq, Structural)]
pub enum IdbTargetType {
    Simulator,
    Device,
}

/// The C value of each status.
pub open spec fn status_code(e: IdbError) -> int {
    match e {
        IdbError::Success => 0,
        IdbError::NotInitialized => -1,
        IdbError::InvalidParameter => -2,
        IdbError::DeviceNotFound => -3,
        IdbError::SimulatorNotRunning => -4,
        IdbError::OperationFailed => -5,
        IdbError::Timeout => -6,
        IdbError::OutOfMemory => -7,
        IdbError::NotSupported => -8,
    }
}

/// The C value of each target type.
pub open spec fn target_type_code(t: IdbTargetType) -> int {
    match t {
        IdbTargetType::Simulator => 0,
        IdbTargetType::Device => 1,
    }
}

impl IdbError {
    /// The C value of this status.
    pub fn code(self) -> (r: i32)
        ensures
            r == status_code(self),
    {
        match self {
            IdbError::Success => 0,
            IdbError::NotInitialized => -1,
            IdbError::InvalidParameter => -2,
            IdbError::DeviceNotFound => -3,
            IdbError::SimulatorNotRunning => -4,
            IdbError::OperationFailed => -5,
            IdbError::Timeout => -6,
            IdbError::OutOfMemory => -7,
            IdbError::NotSupported => -8,
        }
    }

    /// The status with C value `code`, if there is one.
    pub fn from_code(code: i32) -> (r: Option<IdbError>)
        ensures
            r matches Some(e) ==> status_code(e) == code,
            r is None <==> (code > 0 || code < -8),
    {
        if code == 0 {
            Some(IdbError::Success)
        } else if code == -1 {
            Some(IdbError::NotInitialized)
        } else if code == -2 {
            Some(IdbError::InvalidParameter)
        } else if code == -3 {
            Some(IdbError::DeviceNotFound)
        } else if code == -4 {
            Some(IdbError::SimulatorNotRunning)
        } else if code == -5 {
            Some(IdbError::OperationFailed)
        } else if code == -6 {
            Some(IdbError::Timeout)
        } else if code == -7 {
            Some(IdbError::OutOfMemory)
        } else if code == -8 {
            Some(IdbError::NotSupported)
        } else {
            None
        }
    }

    /// Turns a status into a `Result`: `Ok` for success, the status itself
    /// otherwise.
    pub fn into_result(self) -> (r: Result<(), IdbError>)
        ensures
            self == IdbError::Success <==> r is Ok,
            self != IdbError::Success ==> r == Err::<(), IdbError>(self),
    {
        match self {
            IdbError::Success => Ok(()),
            e => Err(e),
        }
    }

    /// Turns a C status code into a `Result`. A code outside the enumeration
    /// counts as a failed operation.
    pub fn check(code: i32) -> (r: Result<(), IdbError>)
        ensures
            code == 0 <==> r is Ok,
            code != 0 && -8 <= code < 0 ==> (r matches Err(e) && status_code(e) == code),
            (code > 0 || code < -8) ==> r == Err::<(), IdbError>(IdbError::OperationFailed),
    {
        match IdbError::from_code(code) {
            Some(e) => e.into_result(),
            None => Err(IdbError::OperationFailed),
        }
    }
}

impl IdbTargetType {
    /// The C value of this target type.
    pub fn code(self) -> (r: i32)
        ensures
            r == target_type_code(self),
    {
        match self {
            IdbTargetType::Simulator => 0,
            IdbTargetType::Device => 1,
        }
    }
}

/// Checks a text argument before it is handed to the companion as a C
/// string: it must hold no NUL character.
pub fn check_c_string(s: &str) -> (r: Result<(), IdbError>)
    ensures
        crate::ffi::is_c_string(s@) <==> r is Ok,
        r is Err ==> r == Err::<(), IdbError>(IdbError::InvalidParameter),
{
    match crate::ffi::check_c_string(s) {
        Ok(()) => Ok(()),
        Err(_) => Err(IdbError::InvalidParameter),
    }
}

} // verus!
