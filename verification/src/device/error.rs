//! What can go wrong while talking to the device.

use vstd::prelude::*;

verus! {

/// A failed exchange with the device.
#[derive(Clone, Copy, Debug, PartialEq, Eq, Structural)]
pub enum Error {
    /// The transport failed for a reason other than having nothing to read yet.
    Io,
    /// The firmware version is not valid UTF-8.
    Utf8,
    /// The device answered with a status code other than zero.
    DeviceError(i32),
    /// The device reported a parameter size other than 1, 2 or 4.
    ParameterSizeError(usize),
    /// The answer to a status request does not start with the magic word.
    UnexpectedResponseError,
}

} // verus!
