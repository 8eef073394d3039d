//! One exchange with the device: a request is written, then its answer is
//! read.
//!
//! A command owns the device while the exchange lasts and gives it back with
//! the answer. It is driven in one of two ways. On a device that implements
//! `AsyncHidDevice`, `poll` writes and reads as far as the device allows, and
//! is called again whenever the device has something to read. Without the
//! trait the steps are taken by hand: `request` hands out what is to be
//! written, `written` says that it was, and `response` takes what the device
//! sent. `poll` takes these very steps.

use crate::device::error::Error;
use crate::device::report::frame_with_report;
use crate::device::report::MidiFaderCommandArgs;
use crate::device::transport::Async;
use crate::device::transport::AsyncHidDevice;
use crate::device::transport::MidiFader;
use vstd::prelude::*;

verus! {

/// How far something that needs the device has come.
#[derive(Debug)]
pub enum Progress<M, R> {
    /// Not done yet: what to go on with.
    Pending(M),
    /// Done: the result.
    Ready(R),
}

impl<M: View, R: View> View for Progress<M, R> {
    type V = Progress<M::V, R::V>;

    open spec fn view(&self) -> Progress<M::V, R::V> {
        match *self {
            Progress::Pending(machine) => Progress::Pending(machine@),
            Progress::Ready(result) => Progress::Ready(result@),
        }
    }
}

/// What came of a step that can fail: the error, or how far it got.
pub open spec fn outcome_view<M: View, R: View>(outcome: Result<Progress<M, R>, Error>) -> Result<
    Progress<M::V, R::V>,
    Error,
> {
    match outcome {
        Ok(progress) => Ok(progress@),
        Err(e) => Err(e),
    }
}

/// A buffer before a report is read into it: 64 zero bytes.
pub open spec fn blank_report() -> Seq<u8> {
    Seq::new(64, |i: int| 0u8)
}

/// A pending read of one report: the device and the frame to read into.
pub struct ReadReport<T> {
    device: T,
    buf: MidiFaderCommandArgs,
}

/// What a `ReadReport` holds.
pub ghost struct ReadReportView<T> {
    pub device: T,
    pub buf: Seq<u8>,
}

impl<T> View for ReadReport<T> {
    type V = ReadReportView<T>;

    closed spec fn view(&self) -> ReadReportView<T> {
        ReadReportView { device: self.device, buf: self.buf@ }
    }
}

impl<T> ReadReportView<T> {
    /// What the read makes of a poll of the device that came to `outcome` and
    /// left `report` in the buffer. A failure of the transport is the
    /// failure of the read. A full report of 64 bytes, counted as such,
    /// completes the read. Otherwise the read stays as it is.
    pub open spec fn polled(self, outcome: Result<Async<usize>, Error>, report: Seq<u8>) -> Result<
        Progress<ReadReportView<T>, (T, Seq<u8>, usize)>,
        Error,
    > {
        match outcome {
            Err(e) => Err(e),
            Ok(Async::NotReady) => Ok(Progress::Pending(self)),
            Ok(Async::Ready(n)) => if n == 64 && report.len() == 64 {
                Ok(Progress::Ready((self.device, frame_with_report(self.buf, report), 64usize)))
            } else {
                Ok(Progress::Pending(self))
            },
        }
    }
}

impl<T: AsyncHidDevice<MidiFader>> ReadReportView<T> {
    /// Whether a poll of the read can come to `result`: the device is polled
    /// once, for a read into a blank buffer, and `result` is what the read
    /// makes of the outcome.
    pub open spec fn may_poll(
        self,
        result: Result<Progress<ReadReportView<T>, (T, Seq<u8>, usize)>, Error>,
    ) -> bool {
        exists|report: Seq<u8>, outcome: Result<Async<usize>, Error>|
            report.len() == 64 && #[trigger] self.device.reads(blank_report(), report, outcome)
                && result == self.polled(outcome, report)
    }
}

/// What a poll of a read came to, in terms of what the read and the frame
/// hold.
pub open spec fn read_poll_view<T>(
    progress: Result<Progress<ReadReport<T>, (T, MidiFaderCommandArgs, usize)>, Error>,
) -> Result<Progress<ReadReportView<T>, (T, Seq<u8>, usize)>, Error> {
    match progress {
        Err(e) => Err(e),
        Ok(Progress::Pending(read)) => Ok(Progress::Pending(read@)),
        Ok(Progress::Ready((device, buf, n))) => Ok(Progress::Ready((device, buf@, n))),
    }
}

impl<T> ReadReport<T> {
    /// A read into `buf` on `dev`.
    pub fn new(dev: T, buf: MidiFaderCommandArgs) -> (read: Self)
        ensures
            read@ == (ReadReportView { device: dev, buf: buf@ }),
    {
        ReadReport { device: dev, buf }
    }

    /// The device to read from.
    pub fn device(&self) -> (dev: &T)
        ensures
            *dev == self@.device,
    {
        &self.device
    }

    /// Takes what the transport read. A full report of 64 bytes completes the
    /// read, with the device, the frame that now holds the report, and the
    /// number of bytes. Anything else is no report: the read stays pending.
    pub fn response(self, report: &[u8]) -> (progress: Progress<Self, (T, MidiFaderCommandArgs, usize)>)
        ensures
            report@.len() == 64 ==> (progress matches Progress::Ready((dev, buf, n)) && dev
                == self@.device && buf@ == frame_with_report(self@.buf, report@) && n == 64),
            report@.len() != 64 ==> (progress matches Progress::Pending(read) && read@ == self@),
    {
        let mut read = self;
        if read.buf.fill(report) {
            Progress::Ready((read.device, read.buf, report.len()))
        } else {
            Progress::Pending(read)
        }
    }

    /// What the read makes of a poll of the device that came to `outcome` and
    /// left `report` in the buffer; see `ReadReportView::polled`.
    pub fn polled(self, outcome: Result<Async<usize>, Error>, report: &[u8]) -> (progress: Result<
        Progress<Self, (T, MidiFaderCommandArgs, usize)>,
        Error,
    >)
        ensures
            read_poll_view(progress) == self@.polled(outcome, report@),
    {
        match outcome {
            Err(e) => Err(e),
            Ok(Async::NotReady) => Ok(Progress::Pending(self)),
            Ok(Async::Ready(n)) => {
                if n == 64 {
                    Ok(self.response(report))
                } else {
                    Ok(Progress::Pending(self))
                }
            },
        }
    }
}

/// The two phases of a command.
enum MidiFaderCommandState<T> {
    /// The request has not been written yet.
    Command { device: T, data: MidiFaderCommandArgs },
    /// The request is out, the answer is awaited.
    Status(ReadReport<T>),
}

/// A command: one request and its answer.
pub struct MidiFaderCommand<T> {
    state: MidiFaderCommandState<T>,
}

/// What a command holds: the device, the frame (the request, which the
/// answer will be read into), and whether the request has been written.
pub ghost struct CommandView<T> {
    pub device: T,
    pub data: Seq<u8>,
    pub written: bool,
}

impl<T> CommandView<T> {
    /// Whether `report`, handed to the command, completes it.
    pub open spec fn answered_by(self, report: Seq<u8>) -> bool {
        self.written && report.len() == 64
    }

    /// The frame once `report` was read into it.
    pub open spec fn answer(self, report: Seq<u8>) -> Seq<u8> {
        frame_with_report(self.data, report)
    }

    /// The command once its request was written.
    pub open spec fn written(self) -> CommandView<T> {
        CommandView { written: true, ..self }
    }

    /// What the command makes of a write of its request that came to
    /// `outcome`: a failure of the transport is the failure of the command;
    /// after any other outcome the request is written.
    pub open spec fn wrote(self, outcome: Result<usize, Error>) -> Result<CommandView<T>, Error> {
        match outcome {
            Err(e) => Err(e),
            Ok(_) => Ok(self.written()),
        }
    }

    /// What the command makes of a poll of the device that came to `outcome`
    /// and left `report` in the buffer. A failure of the transport is the
    /// failure of the command. A full report of 64 bytes, counted as such,
    /// completes the command if its request is written. Otherwise the
    /// command stays as it is.
    pub open spec fn polled(self, outcome: Result<Async<usize>, Error>, report: Seq<u8>) -> Result<
        Progress<CommandView<T>, (T, Seq<u8>, usize)>,
        Error,
    > {
        match outcome {
            Err(e) => Err(e),
            Ok(Async::NotReady) => Ok(Progress::Pending(self)),
            Ok(Async::Ready(n)) => if n == 64 && self.answered_by(report) {
                Ok(Progress::Ready((self.device, self.answer(report), 64usize)))
            } else {
                Ok(Progress::Pending(self))
            },
        }
    }
}

impl<T: AsyncHidDevice<MidiFader>> CommandView<T> {
    /// Whether a poll for the answer can come to `result`: the device is
    /// polled once, for a read into a blank buffer, and `result` is what the
    /// command makes of the outcome.
    pub open spec fn may_read(
        self,
        result: Result<Progress<CommandView<T>, (T, Seq<u8>, usize)>, Error>,
    ) -> bool {
        exists|report: Seq<u8>, outcome: Result<Async<usize>, Error>|
            report.len() == 64 && #[trigger] self.device.reads(blank_report(), report, outcome)
                && result == self.polled(outcome, report)
    }

    /// Whether a poll of the command can come to `result`. A request that is
    /// not written yet is written first, once, as it stands in the frame; a
    /// failure of that write is the result. Then the device is polled for
    /// the answer.
    pub open spec fn may_poll(
        self,
        result: Result<Progress<CommandView<T>, (T, Seq<u8>, usize)>, Error>,
    ) -> bool {
        if self.written {
            self.may_read(result)
        } else {
            exists|wrote: Result<usize, Error>| #[trigger]
                self.device.writes(self.data, wrote) && (match self.wrote(wrote) {
                    Err(e) => result == Err::<
                        Progress<CommandView<T>, (T, Seq<u8>, usize)>,
                        Error,
                    >(e),
                    Ok(written) => written.may_read(result),
                })
        }
    }
}

/// What a poll of a command came to, in terms of what the command and the
/// frame hold.
pub open spec fn command_poll_view<T>(
    progress: Result<Progress<MidiFaderCommand<T>, (T, MidiFaderCommandArgs, usize)>, Error>,
) -> Result<Progress<CommandView<T>, (T, Seq<u8>, usize)>, Error> {
    match progress {
        Err(e) => Err(e),
        Ok(Progress::Pending(command)) => Ok(Progress::Pending(command@)),
        Ok(Progress::Ready((device, answer, n))) => Ok(Progress::Ready((device, answer@, n))),
    }
}

impl<T> View for MidiFaderCommand<T> {
    type V = CommandView<T>;

    closed spec fn view(&self) -> CommandView<T> {
        match self.state {
            MidiFaderCommandState::Command { device, data } => CommandView {
                device,
                data: data@,
                written: false,
            },
            MidiFaderCommandState::Status(read) => CommandView {
                device: read@.device,
                data: read@.buf,
                written: true,
            },
        }
    }
}

impl<T> MidiFaderCommand<T> {
    /// A command that will send `args` to `dev`.
    pub fn new(dev: T, args: MidiFaderCommandArgs) -> (command: Self)
        ensures
            command@ == (CommandView { device: dev, data: args@, written: false }),
    {
        MidiFaderCommand { state: MidiFaderCommandState::Command { device: dev, data: args } }
    }

    /// The device the command runs on.
    pub fn device(&self) -> (dev: &T)
        ensures
            *dev == self@.device,
    {
        match &self.state {
            MidiFaderCommandState::Command { device, .. } => device,
            MidiFaderCommandState::Status(read) => read.device(),
        }
    }

    /// The request, as long as it has to be written.
    pub fn request(&self) -> (args: Option<&MidiFaderCommandArgs>)
        ensures
            self@.written ==> args is None,
            !self@.written ==> args is Some && args->Some_0@ == self@.data,
    {
        match &self.state {
            MidiFaderCommandState::Command { data, .. } => Some(data),
            MidiFaderCommandState::Status(_) => None,
        }
    }

    /// The request was written: from now on the answer is awaited.
    pub fn written(self) -> (command: Self)
        ensures
            command@ == (CommandView { written: true, ..self@ }),
    {
        match self.state {
            MidiFaderCommandState::Command { device, data } => MidiFaderCommand {
                state: MidiFaderCommandState::Status(ReadReport::new(device, data)),
            },
            MidiFaderCommandState::Status(read) => MidiFaderCommand {
                state: MidiFaderCommandState::Status(read),
            },
        }
    }

    /// Takes what the transport read. Once the request is written, a full
    /// report completes the command, with the device, the answer and its
    /// length. Before that, or on anything but a full report, the command
    /// stays as it is.
    pub fn response(self, report: &[u8]) -> (progress: Progress<
        Self,
        (T, MidiFaderCommandArgs, usize),
    >)
        ensures
            self@.answered_by(report@) ==> (progress matches Progress::Ready((dev, answer, n))
                && dev == self@.device && answer@ == self@.answer(report@) && n == 64),
            !self@.answered_by(report@) ==> (progress matches Progress::Pending(command)
                && command@ == self@),
    {
        match self.state {
            MidiFaderCommandState::Command { device, data } => Progress::Pending(
                MidiFaderCommand { state: MidiFaderCommandState::Command { device, data } },
            ),
            MidiFaderCommandState::Status(read) => match read.response(report) {
                Progress::Ready(done) => Progress::Ready(done),
                Progress::Pending(read) => Progress::Pending(
                    MidiFaderCommand { state: MidiFaderCommandState::Status(read) },
                ),
            },
        }
    }
}

impl<T> MidiFaderCommand<T> {
    /// What the command makes of a write of its request that came to
    /// `outcome`; see `CommandView::wrote`.
    pub fn wrote(self, outcome: Result<usize, Error>) -> (command: Result<Self, Error>)
        ensures
            match self@.wrote(outcome) {
                Ok(written) => command matches Ok(next) && next@ == written,
                Err(e) => command matches Err(err) && err == e,
            },
    {
        match outcome {
            Ok(_) => Ok(self.written()),
            Err(e) => Err(e),
        }
    }

    /// What the command makes of a poll of the device that came to `outcome`
    /// and left `report` in the buffer; see `CommandView::polled`.
    pub fn polled(self, outcome: Result<Async<usize>, Error>, report: &[u8]) -> (progress: Result<
        Progress<Self, (T, MidiFaderCommandArgs, usize)>,
        Error,
    >)
        ensures
            command_poll_view(progress) == self@.polled(outcome, report@),
    {
        match outcome {
            Err(e) => Err(e),
            Ok(Async::NotReady) => Ok(Progress::Pending(self)),
            Ok(Async::Ready(n)) => {
                if n == 64 {
                    Ok(self.response(report))
                } else {
                    Ok(Progress::Pending(self))
                }
            },
        }
    }
}

impl<T: AsyncHidDevice<MidiFader>> ReadReport<T> {
    /// Polls the device once for the report, with a blank buffer, and makes
    /// of the outcome what `polled` says.
    ///
    /// Whatever the device does, the read comes back as it was, or done with
    /// a full report in its frame, or it has failed with the error of the
    /// transport.
    pub fn poll(self) -> (progress: Result<Progress<Self, (T, MidiFaderCommandArgs, usize)>, Error>)
        ensures
            self@.may_poll(read_poll_view(progress)),
            progress matches Ok(Progress::Pending(read)) ==> read@ == self@,
            progress matches Ok(Progress::Ready((dev, buf, n))) ==> dev == self@.device && n == 64
                && exists|report: Seq<u8>|
                report.len() == 64 && buf@ == frame_with_report(self@.buf, report),
    {
        let mut report = [0u8;64];
        assert(report@ =~= blank_report());
        let outcome = self.device.poll_read(&mut report);
        assert(self@.device.reads(blank_report(), report@, outcome));
        self.polled(outcome, &report)
    }
}

impl<T: AsyncHidDevice<MidiFader>> MidiFaderCommand<T> {
    /// Takes the command as far as the device allows right now: writes the
    /// request if that is still to do, once and as it stands in the frame,
    /// then polls the device once for the answer, with a blank buffer. What
    /// comes of the two outcomes is what `wrote` and `polled` say.
    ///
    /// Whatever the device does, the command comes back waiting for its
    /// answer, or done with a full report in its frame, or it has failed with
    /// the error of the transport.
    pub fn poll(self) -> (progress: Result<Progress<Self, (T, MidiFaderCommandArgs, usize)>, Error>)
        ensures
            self@.may_poll(command_poll_view(progress)),
            progress matches Ok(Progress::Pending(command)) ==> command@ == (CommandView {
                written: true,
                ..self@
            }),
            progress matches Ok(Progress::Ready((dev, answer, n))) ==> dev == self@.device && n
                == 64 && exists|report: Seq<u8>|
                report.len() == 64 && answer@ == self@.answer(report),
    {
        // the request goes out once, before anything is read
        let wrote = match self.request() {
            Some(args) => Some(self.device().write(args.as_ref())),
            None => None,
        };
        let command = match wrote {
            Some(outcome) => {
                assert(self@.device.writes(self@.data, outcome));
                match self.wrote(outcome) {
                    Ok(command) => command,
                    Err(e) => {
                        return Err(e);
                    },
                }
            },
            None => self,
        };
        let mut report = [0u8;64];
        assert(report@ =~= blank_report());
        let outcome = command.device().poll_read(&mut report);
        assert(command@.device.reads(blank_report(), report@, outcome));
        let progress = command.polled(outcome, &report);
        assert(command@.may_read(command_poll_view(progress)));
        progress
    }
}

} // verus!
