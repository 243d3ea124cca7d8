//! Error kinds reported by the USB transport.

use vstd::prelude::*;

verus! {

/// What can go wrong on the USB transport.
///
/// `Timeout` is kept apart from `Io`: a transfer that timed out may simply
/// mean that the probe had nothing to say, while `Io` means that the
/// command/response stream can no longer be trusted.
#[derive(Clone, Copy, Debug, PartialEq, Eq, Structural)]
pub enum UsbError {
    /// A transfer moved a different number of bytes than the protocol fixes.
    Io,
    /// An argument was outside of what the operation accepts.
    InvalidParam,
    /// Access to the device was denied.
    Access,
    /// The device has been disconnected.
    NoDevice,
    /// The device, the session or one of its endpoints does not exist.
    NotFound,
    /// The device or the session is occupied.
    Busy,
    /// The transfer did not finish in time.
    Timeout,
    /// The device sent more than was asked for.
    Overflow,
    /// The endpoint stalled.
    Pipe,
    /// A system call was interrupted.
    Interrupted,
    /// Out of memory.
    NoMem,
    /// The platform does not support the operation.
    NotSupported,
    /// Any other failure.
    Other,
}

} // verus!
