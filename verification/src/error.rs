//! The error kinds of the library.
//!
//! The virtual-HID bus driver reports a status code with every call; the
//! codes are kept as a closed set of named kinds (plus a catch-all for a
//! code outside the set) so that callers can branch on the cause without
//! string matching.

use vstd::prelude::*;

verus! {

// The status codes of the bus driver's interface.
pub const VIGEM_ERROR_NONE: u32 = 0x20000000;
pub const VIGEM_ERROR_BUS_NOT_FOUND: u32 = 0xE0000001;
pub const VIGEM_ERROR_NO_FREE_SLOT: u32 = 0xE0000002;
pub const VIGEM_ERROR_INVALID_TARGET: u32 = 0xE0000003;
pub const VIGEM_ERROR_REMOVAL_FAILED: u32 = 0xE0000004;
pub const VIGEM_ERROR_ALREADY_CONNECTED: u32 = 0xE0000005;
pub const VIGEM_ERROR_TARGET_UNINITIALIZED: u32 = 0xE0000006;
pub const VIGEM_ERROR_TARGET_NOT_PLUGGED_IN: u32 = 0xE0000007;
pub const VIGEM_ERROR_BUS_VERSION_MISMATCH: u32 = 0xE0000008;
pub const VIGEM_ERROR_BUS_ACCESS_FAILED: u32 = 0xE0000009;
pub const VIGEM_ERROR_CALLBACK_ALREADY_REGISTERED: u32 = 0xE0000010;
pub const VIGEM_ERROR_CALLBACK_NOT_FOUND: u32 = 0xE0000011;
pub const VIGEM_ERROR_BUS_ALREADY_CONNECTED: u32 = 0xE0000012;
pub const VIGEM_ERROR_BUS_INVALID_HANDLE: u32 = 0xE0000013;
pub const VIGEM_ERROR_XUSB_USERINDEX_OUT_OF_RANGE: u32 = 0xE0000014;
pub const VIGEM_ERROR_INVALID_PARAMETER: u32 = 0xE0000015;
pub const VIGEM_ERROR_NOT_SUPPORTED: u32 = 0xE0000022;

/// Every error the library can report.
#[derive(Clone, Copy, Debug, PartialEq, Eq, Structural)]
pub enum Error {
    /// Allocating the client failed.
    NoVigemAlloc,
    /// Allocating an Xbox-360 pad target failed.
    NoX360PadAlloc,
    /// Bus not found.
    BusNotFound,
    /// No free slot on the bus.
    NoFreeSlot,
    /// Invalid target.
    InvalidTarget,
    /// Removal failed.
    RemovalFailed,
    /// Already connected.
    AlreadyConnected,
    /// Target uninitialized.
    TargetUninitialized,
    /// Target not plugged in.
    TargetNotPluggedIn,
    /// Bus version mismatch.
    BusVersionMismatch,
    /// Bus access failed.
    BusAccessFailed,
    /// The same callback has already been registered.
    CallbackAlreadyRegistered,
    /// Another callback has already been registered for this target.
    AlreadyHasCallback,
    /// Callback not found.
    CallbackNotFound,
    /// Bus already connected.
    BusAlreadyConnected,
    /// Invalid bus handle.
    BusInvalidHandle,
    /// User index out of range.
    UserIndexOutOfRange,
    /// Invalid parameter.
    InvalidParameter,
    /// Not supported.
    NotSupported,
    /// A status code outside the named set.
    UnknownError(u32),
}

/// The error kind that a non-success status code maps to.
pub open spec fn error_of_code(code: u32) -> Error {
    if code == VIGEM_ERROR_BUS_NOT_FOUND {
        Error::BusNotFound
    } else if code == VIGEM_ERROR_NO_FREE_SLOT {
        Error::NoFreeSlot
    } else if code == VIGEM_ERROR_INVALID_TARGET {
        Error::InvalidTarget
    } else if code == VIGEM_ERROR_REMOVAL_FAILED {
        Error::RemovalFailed
    } else if code == VIGEM_ERROR_ALREADY_CONNECTED {
        Error::AlreadyConnected
    } else if code == VIGEM_ERROR_TARGET_UNINITIALIZED {
        Error::TargetUninitialized
    } else if code == VIGEM_ERROR_TARGET_NOT_PLUGGED_IN {
        Error::TargetNotPluggedIn
    } else if code == VIGEM_ERROR_BUS_VERSION_MISMATCH {
        Error::BusVersionMismatch
    } else if code == VIGEM_ERROR_BUS_ACCESS_FAILED {
        Error::BusAccessFailed
    } else if code == VIGEM_ERROR_CALLBACK_ALREADY_REGISTERED {
        Error::CallbackAlreadyRegistered
    } else if code == VIGEM_ERROR_CALLBACK_NOT_FOUND {
        Error::CallbackNotFound
    } else if code == VIGEM_ERROR_BUS_ALREADY_CONNECTED {
        Error::BusAlreadyConnected
    } else if code == VIGEM_ERROR_BUS_INVALID_HANDLE {
        Error::BusInvalidHandle
    } else if code == VIGEM_ERROR_XUSB_USERINDEX_OUT_OF_RANGE {
        Error::UserIndexOutOfRange
    } else if code == VIGEM_ERROR_INVALID_PARAMETER {
        Error::InvalidParameter
    } else if code == VIGEM_ERROR_NOT_SUPPORTED {
        Error::NotSupported
    } else {
        Error::UnknownError(code)
    }
}

/// Turn a status code of the bus into a `Result`: success for
/// `VIGEM_ERROR_NONE`, otherwise exactly the named kind of the code.
pub fn check(code: u32) -> (r: Result<(), Error>)
    ensures
        r is Ok <==> code == VIGEM_ERROR_NONE,
        code != VIGEM_ERROR_NONE ==> r == Err::<(), Error>(error_of_code(code)),
{
    if code == VIGEM_ERROR_NONE {
        return Ok(());
    }
    Err(
        if code == VIGEM_ERROR_BUS_NOT_FOUND {
            Error::BusNotFound
        } else if code == VIGEM_ERROR_NO_FREE_SLOT {
            Error::NoFreeSlot
        } else if code == VIGEM_ERROR_INVALID_TARGET {
            Error::InvalidTarget
        } else if code == VIGEM_ERROR_REMOVAL_FAILED {
            Error::RemovalFailed
        } else if code == VIGEM_ERROR_ALREADY_CONNECTED {
            Error::AlreadyConnected
        } else if code == VIGEM_ERROR_TARGET_UNINITIALIZED {
            Error::TargetUninitialized
        } else if code == VIGEM_ERROR_TARGET_NOT_PLUGGED_IN {
            Error::TargetNotPluggedIn
        } else if code == VIGEM_ERROR_BUS_VERSION_MISMATCH {
            Error::BusVersionMismatch
        } else if code == VIGEM_ERROR_BUS_ACCESS_FAILED {
            Error::BusAccessFailed
        } else if code == VIGEM_ERROR_CALLBACK_ALREADY_REGISTERED {
            Error::CallbackAlreadyRegistered
        } else if code == VIGEM_ERROR_CALLBACK_NOT_FOUND {
            Error::CallbackNotFound
        } else if code == VIGEM_ERROR_BUS_ALREADY_CONNECTED {
            Error::BusAlreadyConnected
        } else if code == VIGEM_ERROR_BUS_INVALID_HANDLE {
            Error::BusInvalidHandle
        } else if code == VIGEM_ERROR_XUSB_USERINDEX_OUT_OF_RANGE {
            Error::UserIndexOutOfRange
        } else if code == VIGEM_ERROR_INVALID_PARAMETER {
            Error::InvalidParameter
        } else if code == VIGEM_ERROR_NOT_SUPPORTED {
            Error::NotSupported
        } else {
            Error::UnknownError(code)
        },
    )
}

} // verus!
