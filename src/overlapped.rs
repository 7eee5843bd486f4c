use vstd::prelude::*;

use crate::error::SerialError;

verus! {

/// The platform's values for the error codes that the event-object
/// strategies read.
#[derive(Clone, Copy, Debug, PartialEq, Eq, Structural)]
pub struct WinCodes {
    /// `ERROR_ACCESS_DENIED`: the device is open elsewhere.
    pub access_denied: i32,
    /// `ERROR_IO_PENDING`: an overlapped request was queued.
    pub io_pending: i32,
    /// `ERROR_SEM_TIMEOUT`: a write ran into its timeout.
    pub sem_timeout: i32,
    /// `ERROR_OPERATION_ABORTED`: a request was cancelled.
    pub operation_aborted: i32,
    /// `ERROR_DEVICE_REMOVED`: the device was removed.
    pub device_removed: i32,
    /// `ERROR_BAD_COMMAND`: what a USB serial driver reports once its
    /// device was unplugged.
    pub bad_command: i32,
    /// `ERROR_GEN_FAILURE`: the device no longer functions.
    pub gen_failure: i32,
}

/// Whether `code` says that the device went away.
pub open spec fn is_gone(code: i32, codes: WinCodes) -> bool {
    code == codes.device_removed || code == codes.bad_command || code == codes.gen_failure
}

/// Which way a request on the device moves data.
#[derive(Clone, Copy, Debug, PartialEq, Eq, Structural)]
pub enum Direction {
    Read,
    Write,
}

/// The error for a request on the device that failed with `code`: the
/// timeout's own code is `TimedOut`; for a read, a vanished device is
/// `UnexpectedEof`; any other code passes through as it is.
pub open spec fn transfer_error_of(dir: Direction, code: i32, codes: WinCodes) -> SerialError {
    if code == codes.sem_timeout {
        SerialError::TimedOut
    } else if dir == Direction::Read && is_gone(code, codes) {
        SerialError::UnexpectedEof
    } else {
        SerialError::Os(code)
    }
}

/// Classifies a request on the device that failed with `code`; see
/// `transfer_error_of`.
pub fn transfer_error(dir: Direction, code: i32, codes: &WinCodes) -> (r: SerialError)
    ensures
        r == transfer_error_of(dir, code, *codes),
        dir == Direction::Write ==> r == (if code == codes.sem_timeout {
            SerialError::TimedOut
        } else {
            SerialError::Os(code)
        }),
{
    if code == codes.sem_timeout {
        SerialError::TimedOut
    } else if dir == Direction::Read && (code == codes.device_removed || code == codes.bad_command
        || code == codes.gen_failure) {
        SerialError::UnexpectedEof
    } else {
        SerialError::Os(code)
    }
}

/// The steps of opening a device, in their order.
#[derive(Clone, Copy, Debug, PartialEq, Eq, Structural)]
pub enum WinOpenStage {
    /// Opening the device without sharing.
    Open,
    /// Setting binary mode and the fixed line settings.
    LineSettings,
    /// Setting the timeout fields.
    Timeouts,
    /// Selecting the arrival of a byte as the event to wait for.
    EventMask,
    /// Creating an event or mutex object.
    SyncObject,
}

/// The error that `open` reports when `stage` failed with code `code`.
pub open spec fn win_open_error_of(stage: WinOpenStage, code: i32, codes: WinCodes) -> SerialError {
    match stage {
        WinOpenStage::Open => if code == codes.access_denied {
            SerialError::ExclusiveAccessDenied
        } else {
            SerialError::Os(code)
        },
        WinOpenStage::LineSettings => SerialError::ConfigurationFailed(code),
        WinOpenStage::Timeouts => SerialError::ConfigurationFailed(code),
        WinOpenStage::EventMask => SerialError::ConfigurationFailed(code),
        WinOpenStage::SyncObject => SerialError::Os(code),
    }
}

/// Classifies the failure of one step of `open`: a device opened elsewhere
/// is `ExclusiveAccessDenied`, a refused setting is `ConfigurationFailed`,
/// and any other code passes through.
pub fn win_open_error(stage: WinOpenStage, code: i32, codes: &WinCodes) -> (r: SerialError)
    ensures
        r == win_open_error_of(stage, code, *codes),
        stage == WinOpenStage::Open && code == codes.access_denied ==> r
            == SerialError::ExclusiveAccessDenied,
{
    match stage {
        WinOpenStage::Open => if code == codes.access_denied {
            SerialError::ExclusiveAccessDenied
        } else {
            SerialError::Os(code)
        },
        WinOpenStage::LineSettings => SerialError::ConfigurationFailed(code),
        WinOpenStage::Timeouts => SerialError::ConfigurationFailed(code),
        WinOpenStage::EventMask => SerialError::ConfigurationFailed(code),
        WinOpenStage::SyncObject => SerialError::Os(code),
    }
}

/// A read or write of an empty buffer succeeds at once with `Ok(0)`,
/// whatever the timeout or the state of the device, and queues no request;
/// any other buffer goes to the device.
pub fn empty_transfer(buf_len: usize) -> (r: Option<Result<usize, SerialError>>)
    ensures
        r == (if buf_len == 0 {
            Some(Ok::<usize, SerialError>(0))
        } else {
            None::<Result<usize, SerialError>>
        }),
{
    if buf_len == 0 {
        Some(Ok(0))
    } else {
        None
    }
}

/// Whether an overlapped request that returned `ok`, with last error `code`
/// when it did not, is under way: it completed at once or was queued.
pub open spec fn issued_of(dir: Direction, ok: bool, code: i32, codes: WinCodes) -> Result<(), SerialError> {
    if ok || code == codes.io_pending {
        Ok(())
    } else {
        Err(transfer_error_of(dir, code, codes))
    }
}

/// Decides whether an overlapped request is under way. Either way its
/// result is collected afterwards, also when it completed at once.
pub fn issued(dir: Direction, ok: bool, code: i32, codes: &WinCodes) -> (r: Result<(), SerialError>)
    ensures
        r == issued_of(dir, ok, code, *codes),
        dir == Direction::Write && !ok && code != codes.io_pending ==> r == Err::<(), SerialError>(
            if code == codes.sem_timeout {
                SerialError::TimedOut
            } else {
                SerialError::Os(code)
            },
        ),
{
    if ok || code == codes.io_pending {
        Ok(())
    } else {
        Err(transfer_error(dir, code, codes))
    }
}

/// The result of a read or write of `buf_len` bytes whose overlapped
/// request finished with `ok`, `len` bytes moved, and last error `code`
/// when it failed. A timeout shows either as the write timeout's own code
/// or as nothing moved for a non-empty buffer; both are `TimedOut`. For a
/// read a vanished device is `UnexpectedEof`; a write passes every other
/// code through as it is.
pub open spec fn completion_of(dir: Direction, ok: bool, code: i32, len: u32, buf_len: usize, codes: WinCodes) -> Result<
    usize,
    SerialError,
> {
    if !ok {
        Err(transfer_error_of(dir, code, codes))
    } else if len == 0 && buf_len > 0 {
        Err(SerialError::TimedOut)
    } else {
        Ok(len as usize)
    }
}

/// Classifies the end of an overlapped read or write, so that every form
/// of timeout is `TimedOut` and a non-empty buffer never yields `Ok(0)`.
pub fn completion(dir: Direction, ok: bool, code: i32, len: u32, buf_len: usize, codes: &WinCodes) -> (r: Result<
    usize,
    SerialError,
>)
    ensures
        r == completion_of(dir, ok, code, len, buf_len, *codes),
        dir == Direction::Write && !ok ==> r == Err::<usize, SerialError>(
            if code == codes.sem_timeout {
                SerialError::TimedOut
            } else {
                SerialError::Os(code)
            },
        ),
        buf_len > 0 ==> r != Ok::<usize, SerialError>(0),
{
    if !ok {
        Err(transfer_error(dir, code, codes))
    } else if len == 0 && buf_len > 0 {
        Err(SerialError::TimedOut)
    } else {
        Ok(len as usize)
    }
}

/// The result of a read on a device whose timeout fields bound it in the
/// kernel, or `None` when the read is to be queued again: without a
/// timeout the fields bound each read only by the longest wait they can
/// express, and a read that ran into it has not timed out.
pub open spec fn kernel_read_of(
    bounded: bool,
    ok: bool,
    code: i32,
    len: u32,
    buf_len: usize,
    codes: WinCodes,
) -> Option<Result<usize, SerialError>> {
    if !bounded && ok && len == 0 && buf_len > 0 {
        None
    } else {
        Some(completion_of(Direction::Read, ok, code, len, buf_len, codes))
    }
}

/// Decides the end of a kernel-bounded read; `bounded` says whether the
/// call has a timeout.
pub fn kernel_read(bounded: bool, ok: bool, code: i32, len: u32, buf_len: usize, codes: &WinCodes) -> (r:
    Option<Result<usize, SerialError>>)
    ensures
        r == kernel_read_of(bounded, ok, code, len, buf_len, *codes),
        !bounded ==> r != Some(Err::<usize, SerialError>(SerialError::TimedOut)) || (!ok && code
            == codes.sem_timeout),
{
    if !bounded && ok && len == 0 && buf_len > 0 {
        None
    } else {
        Some(completion(Direction::Read, ok, code, len, buf_len, codes))
    }
}

/// The outcome of a wait for data that timed out, after its request was
/// cancelled: `cancel_ok` and `cancel_code` report the cancellation,
/// `result_ok` and `result_code` the request's own result read afterwards.
/// The request may have completed just before the cancellation took hold;
/// it is then no longer in flight either, and the call still timed out.
/// The caller reports this outcome only once the request has ended, so
/// that no request of the call outlives it.
pub open spec fn cancelled_of(
    cancel_ok: bool,
    cancel_code: i32,
    result_ok: bool,
    result_code: i32,
    codes: WinCodes,
) -> SerialError {
    if !cancel_ok {
        SerialError::Os(cancel_code)
    } else if result_ok || result_code == codes.operation_aborted {
        SerialError::TimedOut
    } else {
        transfer_error_of(Direction::Read, result_code, codes)
    }
}

/// Checks how the cancellation of a timed-out wait ended, rather than
/// assuming that it won the race against the request's completion.
pub fn cancelled(cancel_ok: bool, cancel_code: i32, result_ok: bool, result_code: i32, codes: &WinCodes) -> (r:
    SerialError)
    ensures
        r == cancelled_of(cancel_ok, cancel_code, result_ok, result_code, *codes),
{
    if !cancel_ok {
        SerialError::Os(cancel_code)
    } else if result_ok || result_code == codes.operation_aborted {
        SerialError::TimedOut
    } else {
        transfer_error(Direction::Read, result_code, codes)
    }
}

} // verus!
