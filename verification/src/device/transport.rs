//! The transport: what the engine asks of whoever holds the device open.

use crate::device::error::Error;
use vstd::prelude::*;

verus! {

/// The USB vendor id of the device.
pub const VID: u16 = 0x16c0;

/// The USB product id of the device.
pub const PID: u16 = 0x05dc;

/// How a kind of device is told apart from others on the bus.
pub trait Identified {
    /// The USB vendor id.
    const VID: u16;

    /// The USB product id.
    const PID: u16;

    /// The manufacturer string.
    const MANUFACTURER: &'static str;

    /// The product string.
    const PRODUCT: &'static str;
}

/// The Midi-Fader itself.
#[derive(Debug)]
pub struct MidiFader {
    _0: (),
}

impl Identified for MidiFader {
    const VID: u16 = VID;

    const PID: u16 = PID;

    const MANUFACTURER: &'static str = "kevincuzner.com";

    const PRODUCT: &'static str = "Midi-Fader";
}

/// The bootloader of the Midi-Fader, which shares its USB ids.
#[derive(Debug)]
pub struct Bootloader {
    _0: (),
}

impl Identified for Bootloader {
    const VID: u16 = VID;

    const PID: u16 = PID;

    const MANUFACTURER: &'static str = "kevincuzner.com";

    const PRODUCT: &'static str = "Midi-Fader Bootloader";
}

/// What a poll came to.
#[derive(Debug, PartialEq, Eq, Structural)]
pub enum Async<T> {
    /// The result is there.
    Ready(T),
    /// Nothing yet: poll again when the runtime says that the device can be
    /// read.
    NotReady,
}

/// A human interface device that is read without blocking.
///
/// What a device sends, and whether the transport fails, is for the device to
/// decide. `reads` and `writes` say which outcomes a call can come to.
/// Unless an implementor says more, any outcome is possible; whoever works
/// with an unknown device knows of an outcome only that a call came to it.
pub trait AsyncHidDevice<I: Identified>: Sized {
    /// Whether a poll for a read into a buffer that held `before` can leave
    /// `after` in the buffer and come to `outcome`.
    open spec fn reads(
        &self,
        before: Seq<u8>,
        after: Seq<u8>,
        outcome: Result<Async<usize>, Error>,
    ) -> bool {
        true
    }

    /// Whether a write of `report` can come to `outcome`.
    open spec fn writes(&self, report: Seq<u8>, outcome: Result<usize, Error>) -> bool {
        true
    }

    /// Tries to read one report into `report`: the number of bytes read, or
    /// `NotReady` where the read would block.
    fn poll_read(&self, report: &mut [u8]) -> (outcome: Result<Async<usize>, Error>)
        ensures
            self.reads(old(report)@, final(report)@, outcome),
    ;

    /// Writes one report, report index first: the number of bytes written.
    /// A write never has to be tried again.
    fn write(&self, report: &[u8]) -> (outcome: Result<usize, Error>)
        ensures
            self.writes(report@, outcome),
    ;
}

/// What one attempt to read from the open device came to.
#[derive(Clone, Copy, Debug, PartialEq, Eq, Structural)]
pub enum ReadAttempt {
    /// So many bytes were read.
    Read(usize),
    /// Nothing is there to read; the attempt would have blocked.
    WouldBlock,
    /// The transport failed.
    Failed,
}

impl ReadAttempt {
    /// What a poll answers after this attempt, and whether the transport has
    /// to forget that the device was readable, so that the runtime tells it
    /// anew. It has to where the attempt would have blocked, and only there.
    pub fn poll(self) -> (answer: (Result<Async<usize>, Error>, bool))
        ensures
            answer == (match self {
                ReadAttempt::Read(n) => (Ok::<Async<usize>, Error>(Async::Ready(n)), false),
                ReadAttempt::WouldBlock => (Ok::<Async<usize>, Error>(Async::NotReady), true),
                ReadAttempt::Failed => (Err::<Async<usize>, Error>(Error::Io), false),
            }),
    {
        match self {
            ReadAttempt::Read(n) => (Ok(Async::Ready(n)), false),
            ReadAttempt::WouldBlock => (Ok(Async::NotReady), true),
            ReadAttempt::Failed => (Err(Error::Io), false),
        }
    }
}

} // verus!
