//! What can go wrong while a configuration request is served.

use vstd::prelude::*;
use vstd::std_specs::convert::FromSpecImpl;

verus! {

/// A failed configuration request, or a failure of the configurator itself.
#[derive(Clone, Copy, Debug, PartialEq, Eq, Structural)]
pub enum Error {
    /// The exchange with the device failed.
    DeviceError(crate::device::error::Error),
    /// The queue of requests failed.
    RecvError,
    /// A response could not be delivered: nobody waits for it any more.
    SendError,
    /// An error to try things out with.
    TestError,
}

impl FromSpecImpl<crate::device::error::Error> for Error {
    open spec fn obeys_from_spec() -> bool {
        true
    }

    open spec fn from_spec(e: crate::device::error::Error) -> Error {
        Error::DeviceError(e)
    }
}

impl From<crate::device::error::Error> for Error {
    fn from(e: crate::device::error::Error) -> (error: Error) {
        Error::DeviceError(e)
    }
}

} // verus!
