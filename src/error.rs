use vstd::prelude::*;

verus! {

/// Why an operation on a serial device failed.
#[derive(Clone, Copy, Debug, PartialEq, Eq, Structural)]
pub enum SerialError {
    /// Another handle already holds the device.
    ExclusiveAccessDenied,
    /// The device refused the raw mode, line settings or timeouts; carries
    /// the OS error code.
    ConfigurationFailed(i32),
    /// The call did not complete within its timeout.
    TimedOut,
    /// The device went away while the call waited on it.
    UnexpectedEof,
    /// The operation is not available on this platform.
    Unsupported,
    /// Any other OS error, passed on with its code.
    Os(i32),
}

impl SerialError {
    /// Whether retrying the call later may succeed: only a timeout says so.
    pub fn is_timeout(&self) -> (r: bool)
        ensures
            r == (*self == SerialError::TimedOut),
    {
        match self {
            SerialError::TimedOut => true,
            _ => false,
        }
    }

    /// The OS error code that the error carries, if any.
    pub fn os_code(&self) -> (r: Option<i32>)
        ensures
            r == match *self {
                SerialError::ConfigurationFailed(c) => Some(c),
                SerialError::Os(c) => Some(c),
                _ => None::<i32>,
            },
    {
        match self {
            SerialError::ConfigurationFailed(c) => Some(*c),
            SerialError::Os(c) => Some(*c),
            _ => None,
        }
    }
}

} // verus!
