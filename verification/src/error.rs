//! The error taxonomy every fallible operation of this crate reports through.

use vstd::prelude::*;

verus! {

/// Platform error code for "the system cannot find the device specified".
///
/// The driver answers a report submission with it while the virtual device is
/// not yet ready; the client translates it to [`Error::TargetNotReady`].
pub const ERROR_DEV_NOT_EXIST: u32 = 55;

/// Platform error code for "the parameter is incorrect".
///
/// Driver versions that predate the wait-ready operation answer it with this
/// code; the client treats that answer as success.
pub const ERROR_INVALID_PARAMETER: u32 = 87;

/// Platform error code for "the data is invalid".
///
/// The client reports it when a control call that should have produced a
/// response buffer came back with too few bytes to parse.
pub const ERROR_INVALID_DATA: u32 = 13;

/// Platform error code for "an invalid device object parameter".
///
/// The driver answers a user-index query with it when the slot has no XInput
/// index; the client translates it to [`Error::UserIndexOutOfRange`].
pub const ERROR_INVALID_DEVICE_OBJECT_PARAMETER: u32 = 650;

/// Platform error code for "overlapped I/O is still in progress".
///
/// A non-blocking notification poll answers with it while no notification has
/// arrived yet.
pub const ERROR_IO_INCOMPLETE: u32 = 996;

/// Platform error code for "the I/O operation was aborted".
///
/// A pending notification request answers with it when the target it belongs
/// to is unplugged.
pub const ERROR_OPERATION_ABORTED: u32 = 995;

/// Everything that can go wrong while driving a virtual controller.
#[derive(Copy, Clone, Debug, Eq, PartialEq, Structural)]
pub enum Error {
    /// An unclassified platform failure; carries the raw error code.
    WinError(u32),
    /// No driver device interface was found at all.
    BusNotFound,
    /// A driver instance was found but opening it failed; carries the code.
    BusAccessFailed(u32),
    /// Every driver instance found rejected this client's protocol version.
    BusVersionMismatch,
    /// The whole serial-number space was probed and no slot was free.
    NoFreeSlot,
    /// The target is already plugged in; it is an error to plug it in again.
    AlreadyConnected,
    /// The target is not plugged in, so the operation has no slot to act on.
    NotPluggedIn,
    /// The target has not finished attaching; submitted before `wait_ready`.
    TargetNotReady,
    /// The target's slot has no XInput user index assigned.
    UserIndexOutOfRange,
    /// A pending notification request was canceled by the target's teardown.
    OperationAborted,
}

} // verus!
