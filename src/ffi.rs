//! Status handling for the direct native binding.

use vstd::prelude::*;

verus! {

/// A failure reported by the direct native binding.
#[derive(Debug, Clone, PartialEq, Eq)]
pub enum IdbError {
    NotInitialized,
    InvalidParameter,
    DeviceNotFound,
    SimulatorNotRunning,
    OperationFailed(String),
    Timeout,
    OutOfMemory,
    NotSupported,
    Unknown(i32),
}

/// The status code of a successful call.
pub const STATUS_SUCCESS: i32 = 0;

/// Text of an operation failure for which the binding gave no description.
pub open spec fn missing_detail() -> Seq<char> {
    "Unknown error"@
}

/// The error that a status code other than success and operation failure
/// stands for.
pub open spec fn error_of_code(code: i32) -> IdbError {
    if code == -1 {
        IdbError::NotInitialized
    } else if code == -2 {
        IdbError::InvalidParameter
    } else if code == -3 {
        IdbError::DeviceNotFound
    } else if code == -4 {
        IdbError::SimulatorNotRunning
    } else if code == -6 {
        IdbError::Timeout
    } else if code == -7 {
        IdbError::OutOfMemory
    } else if code == -8 {
        IdbError::NotSupported
    } else {
        IdbError::Unknown(code)
    }
}

/// Turns a status code of the binding into a `Result`.
///
/// `detail` is the binding's description of the code (absent where the
/// binding returned none); only an operation failure (-5) carries it.
pub fn check_result(code: i32, detail: Option<String>) -> (r: Result<(), IdbError>)
    ensures
        code == STATUS_SUCCESS <==> r is Ok,
        code == -5 ==> (r matches Err(IdbError::OperationFailed(m)) && m@ == match detail {
            Some(d) => d@,
            None => missing_detail(),
        }),
        code != STATUS_SUCCESS && code != -5 ==> r == Err::<(), IdbError>(
            error_of_code(code),
        ),
{
    if code == STATUS_SUCCESS {
        Ok(())
    } else if code == -1 {
        Err(IdbError::NotInitialized)
    } else if code == -2 {
        Err(IdbError::InvalidParameter)
    } else if code == -3 {
        Err(IdbError::DeviceNotFound)
    } else if code == -4 {
        Err(IdbError::SimulatorNotRunning)
    } else if code == -5 {
        let message = match detail {
            Some(d) => d,
            None => String::from_str("Unknown error"),
        };
        Err(IdbError::OperationFailed(message))
    } else if code == -6 {
        Err(IdbError::Timeout)
    } else if code == -7 {
        Err(IdbError::OutOfMemory)
    } else if code == -8 {
        Err(IdbError::NotSupported)
    } else {
        Err(IdbError::Unknown(code))
    }
}

/// Whether `s` can be handed to the binding as a C string: it must hold no
/// NUL character.
pub open spec fn is_c_string(s: Seq<char>) -> bool {
    !s.contains('\0')
}

/// Checks a text argument before it is handed to the binding as a C string.
pub fn check_c_string(s: &str) -> (r: Result<(), IdbError>)
    ensures
        is_c_string(s@) <==> r is Ok,
        r is Err ==> r == Err::<(), IdbError>(IdbError::InvalidParameter),
{
    let n = s.unicode_len();
    let mut i: usize = 0;
    while i < n
        invariant
            n == s@.len(),
            i <= n,
            forall|j: int| 0 <= j < i ==> s@[j] != '\0',
        decreases n - i,
    {
        if s.get_char(i) == '\0' {
            return Err(IdbError::InvalidParameter);
        }
        i = i + 1;
    }
    Ok(())
}

/// Connection state of the direct binding.
///
/// Operations on a target are only handed to the binding once a simulator
/// is connected; otherwise they fail with `DeviceNotFound`.
pub struct IdbDirect {
    connected: bool,
}

impl IdbDirect {
    /// Whether a simulator is connected.
    pub closed spec fn is_connected_spec(&self) -> bool {
        self.connected
    }

    /// The state after the binding was initialized with status `init`:
    /// not connected, or the initialization error.
    pub fn new(init: Result<(), IdbError>) -> (r: Result<IdbDirect, IdbError>)
        ensures
            init is Ok <==> r is Ok,
            r matches Ok(d) ==> !d.is_connected_spec(),
            r matches Err(e) ==> init == Err::<(), IdbError>(e),
    {
        match init {
            Ok(()) => Ok(IdbDirect { connected: false }),
            Err(e) => Err(e),
        }
    }

    /// Whether a simulator is connected.
    pub fn is_connected(&self) -> (r: bool)
        ensures
            r == self.is_connected_spec(),
    {
        self.connected
    }

    /// Admits an operation on the target: `DeviceNotFound` unless connected.
    pub fn require_connected(&self) -> (r: Result<(), IdbError>)
        ensures
            self.is_connected_spec() <==> r is Ok,
            r is Err ==> r == Err::<(), IdbError>(IdbError::DeviceNotFound),
    {
        if self.connected {
            Ok(())
        } else {
            Err(IdbError::DeviceNotFound)
        }
    }

    /// Records the status of a connect call: connected once it succeeded,
    /// unchanged otherwise. The status is handed back.
    pub fn record_connect(&mut self, status: Result<(), IdbError>) -> (r: Result<(), IdbError>)
        ensures
            r == status,
            final(self).is_connected_spec() == (old(self).is_connected_spec() || status is Ok),
    {
        if status.is_ok() {
            self.connected = true;
        }
        status
    }

    /// Records the status of a disconnect call: disconnected once it
    /// succeeded, unchanged otherwise. The status is handed back.
    pub fn record_disconnect(&mut self, status: Result<(), IdbError>) -> (r: Result<(), IdbError>)
        ensures
            r == status,
            final(self).is_connected_spec() == (old(self).is_connected_spec() && status is Err),
    {
        if status.is_ok() {
            self.connected = false;
        }
        status
    }
}

} // verus!
