//! The status of the device, and the command that asks for it.

use crate::device::command::command_poll_view;
use crate::device::command::CommandView;
use crate::device::command::MidiFaderCommand;
use crate::device::command::Progress;
use crate::device::error::Error;
use crate::device::report::empty_frame;
use crate::device::report::frame_with_word;
use crate::device::report::frame_word;
use crate::device::report::lemma_empty_frame;
use crate::device::report::lemma_frame_word_set;
use crate::device::report::version_bytes;
use crate::device::report::MidiFaderCommandArgs;
use crate::device::transport::AsyncHidDevice;
use crate::device::transport::MidiFader;
use vstd::prelude::*;
use vstd::utf8::decode_utf8;
use vstd::utf8::valid_utf8;

verus! {

/// The opcode of a status request.
pub const STATUS: u32 = 0x00;

/// The word that a status answer starts with.
pub const MAGIC: u32 = 0xDEADBEEF;

/// The status of an attached device.
pub struct DeviceStatus {
    channels: u32,
    version: String,
}

/// What a `DeviceStatus` holds: the number of channels and the firmware
/// version.
pub ghost struct DeviceStatusView {
    pub channels: u32,
    pub version: Seq<char>,
}

impl View for DeviceStatus {
    type V = DeviceStatusView;

    closed spec fn view(&self) -> DeviceStatusView {
        DeviceStatusView { channels: self.channels, version: self.version@ }
    }
}

impl DeviceStatus {
    fn new(channels: u32, version: &str) -> (status: Self)
        ensures
            status@ == (DeviceStatusView { channels, version: version@ }),
    {
        DeviceStatus { channels, version: version.to_owned() }
    }

    /// The number of channels of the device.
    pub fn channels(&self) -> (channels: u32)
        ensures
            channels == self@.channels,
    {
        self.channels
    }

    /// The firmware version of the device.
    pub fn version(&self) -> (version: &str)
        ensures
            version@ == self@.version,
    {
        self.version.as_str()
    }
}

/// The frame that asks for the status.
pub open spec fn status_request() -> Seq<u8> {
    frame_with_word(empty_frame(), 0, 0x00)
}

/// The layout of a status request: the opcode 0x00 in the command word, and
/// zero everywhere else.
pub proof fn lemma_status_request(index: int)
    requires
        0 <= index < 14,
    ensures
        status_request().len() == 65,
        status_request()[0] == 0,
        frame_word(status_request(), index) == 0,
{
    lemma_empty_frame(index);
    lemma_frame_word_set(empty_frame(), 0, index, 0x00);
}

/// What the answer to a status request says. Word 0 is the magic word, word
/// 1 the number of channels; the firmware version follows from byte 9 on, as
/// UTF-8 text that ends at the first zero byte.
pub open spec fn status_answer(answer: Seq<u8>) -> Result<DeviceStatusView, Error> {
    if frame_word(answer, 0) != 0xDEADBEEF {
        Err(Error::UnexpectedResponseError)
    } else if !valid_utf8(version_bytes(answer)) {
        Err(Error::Utf8)
    } else {
        Ok(
            DeviceStatusView {
                channels: frame_word(answer, 1),
                version: decode_utf8(version_bytes(answer)),
            },
        )
    }
}

/// The command that gets the status of the device.
pub struct Status<T> {
    command: MidiFaderCommand<T>,
}

impl<T> View for Status<T> {
    type V = CommandView<T>;

    closed spec fn view(&self) -> CommandView<T> {
        self.command@
    }
}

impl<T> Status<T> {
    /// A command that asks `device` for its status.
    pub fn new(device: T) -> (status: Self)
        ensures
            status@ == (CommandView { device, data: status_request(), written: false }),
    {
        let args = MidiFaderCommandArgs::new().set_command(STATUS).unwrap();
        Status { command: MidiFaderCommand::new(device, args) }
    }

    /// The device the command runs on.
    pub fn device(&self) -> (dev: &T)
        ensures
            *dev == self@.device,
    {
        self.command.device()
    }

    /// The request, as long as it has to be written.
    pub fn request(&self) -> (args: Option<&MidiFaderCommandArgs>)
        ensures
            self@.written ==> args is None,
            !self@.written ==> args is Some && args->Some_0@ == self@.data,
    {
        self.command.request()
    }

    /// The request was written: from now on the answer is awaited.
    pub fn written(self) -> (status: Self)
        ensures
            status@ == (CommandView { written: true, ..self@ }),
    {
        Status { command: self.command.written() }
    }

    /// Decodes the answer to a status request.
    pub fn decode(answer: &MidiFaderCommandArgs) -> (status: Result<DeviceStatus, Error>)
        ensures
            status_answer(answer@) matches Ok(view) ==> status is Ok && status->Ok_0@ == view,
            status_answer(answer@) matches Err(e) ==> status is Err && status->Err_0 == e,
    {
        if answer.command() != MAGIC {
            return Err(Error::UnexpectedResponseError);
        }
        let channels = answer.word(1);
        match answer.version() {
            Ok(version) => Ok(DeviceStatus::new(channels, version)),
            Err(e) => Err(e),
        }
    }

    /// Takes what the transport read. Once the request is written, a full
    /// report completes the command: with the device and its status if the
    /// answer holds one, with an error otherwise. Before that, or on anything
    /// but a full report, the command stays as it is.
    pub fn response(self, report: &[u8]) -> (progress: Result<
        Progress<Self, (T, DeviceStatus)>,
        Error,
    >)
        ensures
            !self@.answered_by(report@) ==> (progress matches Ok(Progress::Pending(status))
                && status@ == self@),
            self@.answered_by(report@) ==> (match status_answer(self@.answer(report@)) {
                Ok(view) => progress matches Ok(Progress::Ready((dev, status))) && dev
                    == self@.device && status@ == view,
                Err(e) => progress matches Err(err) && err == e,
            }),
    {
        match self.command.response(report) {
            Progress::Pending(command) => Ok(Progress::Pending(Status { command })),
            Progress::Ready((device, answer, _)) => match Self::decode(&answer) {
                Ok(status) => Ok(Progress::Ready((device, status))),
                Err(e) => Err(e),
            },
        }
    }
}

/// What a status request makes of a poll of its command that came to
/// `inner`. A failure is passed on. A command that waits leaves the request
/// waiting. An answer ends the request: with the device and the status if it
/// holds one, with an error otherwise.
pub open spec fn status_polled<T>(
    inner: Result<Progress<CommandView<T>, (T, Seq<u8>, usize)>, Error>,
) -> Result<Progress<CommandView<T>, (T, DeviceStatusView)>, Error> {
    match inner {
        Err(e) => Err(e),
        Ok(Progress::Pending(command)) => Ok(Progress::Pending(command)),
        Ok(Progress::Ready((device, answer, _))) => match status_answer(answer) {
            Ok(status) => Ok(Progress::Ready((device, status))),
            Err(e) => Err(e),
        },
    }
}

/// What a poll of a status request came to, in terms of what the command and
/// the status hold.
pub open spec fn status_poll_view<T>(
    progress: Result<Progress<Status<T>, (T, DeviceStatus)>, Error>,
) -> Result<Progress<CommandView<T>, (T, DeviceStatusView)>, Error> {
    match progress {
        Err(e) => Err(e),
        Ok(Progress::Pending(status)) => Ok(Progress::Pending(status@)),
        Ok(Progress::Ready((device, status))) => Ok(Progress::Ready((device, status@))),
    }
}

/// Whether a poll of a status request, whose command is `command`, can come
/// to `result`: its command is polled, and `result` is what the request makes
/// of what that came to.
pub open spec fn status_may_poll<T: AsyncHidDevice<MidiFader>>(
    command: CommandView<T>,
    result: Result<Progress<CommandView<T>, (T, DeviceStatusView)>, Error>,
) -> bool {
    exists|inner: Result<Progress<CommandView<T>, (T, Seq<u8>, usize)>, Error>| #[trigger]
        command.may_poll(inner) && result == status_polled(inner)
}

impl<T> Status<T> {
    /// What the request makes of a poll of its command that came to `inner`;
    /// see `status_polled`.
    pub fn polled(
        inner: Result<Progress<MidiFaderCommand<T>, (T, MidiFaderCommandArgs, usize)>, Error>,
    ) -> (progress: Result<Progress<Self, (T, DeviceStatus)>, Error>)
        ensures
            status_poll_view(progress) == status_polled(command_poll_view(inner)),
    {
        match inner {
            Err(e) => Err(e),
            Ok(Progress::Pending(command)) => Ok(Progress::Pending(Status { command })),
            Ok(Progress::Ready((device, answer, _))) => match Self::decode(&answer) {
                Ok(status) => Ok(Progress::Ready((device, status))),
                Err(e) => Err(e),
            },
        }
    }
}

impl<T: AsyncHidDevice<MidiFader>> Status<T> {
    /// Takes the command as far as the device allows right now: writes the
    /// request if that is still to do, then polls the device once for the
    /// answer. The result is what `status_polled` makes of what the poll of
    /// the command came to.
    ///
    /// Whatever the device does, the command comes back waiting for its
    /// answer, or done with the status that a full report holds, or it has
    /// failed: with the error of the transport, or because the answer holds
    /// no status.
    pub fn poll(self) -> (progress: Result<Progress<Self, (T, DeviceStatus)>, Error>)
        ensures
            status_may_poll(self@, status_poll_view(progress)),
            progress matches Ok(Progress::Pending(status)) ==> status@ == (CommandView {
                written: true,
                ..self@
            }),
            progress matches Ok(Progress::Ready((dev, status))) ==> dev == self@.device
                && exists|report: Seq<u8>|
                report.len() == 64 && status_answer(self@.answer(report)) == Ok::<
                    DeviceStatusView,
                    Error,
                >(status@),
    {
        let inner = self.command.poll();
        assert(self@.may_poll(command_poll_view(inner)));
        Self::polled(inner)
    }
}

} // verus!
