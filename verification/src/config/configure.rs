//! The configurator: it serves one request at a time, each on the device
//! that comes with it, and answers on the channel that comes with it.
//!
//! A request is read or written to its end before its response goes out, and
//! the response goes out before the next request is looked at. An error of
//! the device or of the transport ends the request and becomes its response.
//! Only a response that cannot be delivered, or a queue of requests that
//! fails, ends the configurator with an error.

use crate::config::commit::WriteConfiguration;
use crate::config::commit::WriteView;
use crate::config::device_config::DeviceConfig;
use crate::config::device_config::DeviceConfigView;
use crate::config::error::Error;
use crate::config::plan::lemma_read_groups;
use crate::config::plan::read_groups;
use crate::config::plan::settled;
use crate::config::read::ReadConfiguration;
use crate::config::read::ReadView;
use crate::device::command::outcome_view;
use crate::device::command::CommandView;
use crate::device::command::Progress;
use crate::device::report::MidiFaderCommandArgs;
use crate::device::transport::AsyncHidDevice;
use crate::device::transport::MidiFader;
use std::sync::mpsc::Sender;
use vstd::prelude::*;

verus! {

/// `std::sync::mpsc::Sender`, the sending half of a channel. Nothing is read
/// from it.
#[verifier::external_type_specification]
#[verifier::external_body]
#[verifier::reject_recursive_types(T)]
pub struct ExSender<T>(Sender<T>);

/// A configuration request: what to do, and where to send the response.
#[verifier::reject_recursive_types(T)]
#[derive(Debug)]
pub enum Request<T> {
    /// Read the configuration of the device.
    ReadConfiguration(T, Sender<Response<T>>),
    /// Write the changes of the configuration to its device.
    WriteConfiguration(DeviceConfig<T>, Sender<Response<T>>),
}

/// The response to a configuration request.
#[derive(Debug)]
pub enum Response<T> {
    /// The configuration as the device holds it now, with the device.
    Configured(DeviceConfig<T>),
    /// The request failed.
    Error(Error),
}

/// What a `Request` holds.
#[verifier::reject_recursive_types(T)]
pub ghost enum RequestView<T> {
    ReadConfiguration(T, Sender<Response<T>>),
    WriteConfiguration(DeviceConfigView<T>, Sender<Response<T>>),
}

/// What a `Response` holds.
pub ghost enum ResponseView<T> {
    Configured(DeviceConfigView<T>),
    Error(Error),
}

impl<T> View for Request<T> {
    type V = RequestView<T>;

    open spec fn view(&self) -> RequestView<T> {
        match *self {
            Request::ReadConfiguration(device, responses) => RequestView::ReadConfiguration(
                device,
                responses,
            ),
            Request::WriteConfiguration(config, responses) => RequestView::WriteConfiguration(
                config@,
                responses,
            ),
        }
    }
}

impl<T> View for Response<T> {
    type V = ResponseView<T>;

    open spec fn view(&self) -> ResponseView<T> {
        match *self {
            Response::Configured(config) => ResponseView::Configured(config@),
            Response::Error(e) => ResponseView::Error(e),
        }
    }
}

/// The work that a request asks for.
enum Work<T> {
    Reading(ReadConfiguration<T>),
    Writing(WriteConfiguration<T>),
}

/// A request that is being served.
#[verifier::reject_recursive_types(T)]
pub struct Configure<T> {
    work: Work<T>,
    responses: Sender<Response<T>>,
}

/// A response and the channel that it goes out on.
#[verifier::reject_recursive_types(T)]
pub struct Reply<T> {
    response: Response<T>,
    responses: Sender<Response<T>>,
}

/// The work that a request asks for: a read or a commit under way.
pub ghost enum WorkView<T> {
    Reading(ReadView<T>),
    Writing(WriteView<T>),
}

/// What a `Configure` holds.
#[verifier::reject_recursive_types(T)]
pub ghost struct ConfigureView<T> {
    pub work: WorkView<T>,
    pub responses: Sender<Response<T>>,
}

/// What a `Reply` holds.
#[verifier::reject_recursive_types(T)]
pub ghost struct ReplyView<T> {
    pub response: ResponseView<T>,
    pub responses: Sender<Response<T>>,
}

impl<T> WorkView<T> {
    /// The command that is under way.
    pub open spec fn command(self) -> CommandView<T> {
        match self {
            WorkView::Reading(read) => read.command,
            WorkView::Writing(write) => write.command,
        }
    }

    /// The work once the request of its command was written.
    pub open spec fn written(self) -> WorkView<T> {
        match self {
            WorkView::Reading(read) => WorkView::Reading(
                ReadView { command: CommandView { written: true, ..read.command }, ..read },
            ),
            WorkView::Writing(write) => WorkView::Writing(
                WriteView { command: CommandView { written: true, ..write.command }, ..write },
            ),
        }
    }

    /// A read or a commit under way is well-formed.
    pub open spec fn wf(self) -> bool {
        match self {
            WorkView::Reading(read) => read.wf(),
            WorkView::Writing(write) => write.wf(),
        }
    }

    /// What a report from the transport does to the work.
    pub open spec fn step(self, report: Seq<u8>) -> Result<
        Progress<WorkView<T>, DeviceConfigView<T>>,
        crate::device::error::Error,
    > {
        match self {
            WorkView::Reading(read) => match read.step(report) {
                Ok(Progress::Pending(next)) => Ok(Progress::Pending(WorkView::Reading(next))),
                Ok(Progress::Ready(config)) => Ok(Progress::Ready(config)),
                Err(e) => Err(e),
            },
            WorkView::Writing(write) => match write.step(report) {
                Ok(Progress::Pending(next)) => Ok(Progress::Pending(WorkView::Writing(next))),
                Ok(Progress::Ready(config)) => Ok(Progress::Ready(config)),
                Err(e) => Err(e),
            },
        }
    }
}

/// What becomes of a request once its work has come to `outcome`: it goes on
/// while the work does; the configuration is its response once the work is
/// done; the error is its response where the work failed.
pub open spec fn concluded<T>(
    outcome: Result<Progress<WorkView<T>, DeviceConfigView<T>>, crate::device::error::Error>,
    responses: Sender<Response<T>>,
) -> Progress<ConfigureView<T>, ReplyView<T>> {
    match outcome {
        Ok(Progress::Pending(work)) => Progress::Pending(ConfigureView { work, responses }),
        Ok(Progress::Ready(config)) => Progress::Ready(
            ReplyView { response: ResponseView::Configured(config), responses },
        ),
        Err(e) => Progress::Ready(
            ReplyView { response: ResponseView::Error(Error::DeviceError(e)), responses },
        ),
    }
}

/// How a request starts: a read at its first parameter; a commit at its
/// first write, or with its response at once where nothing waits to be
/// written.
pub open spec fn started<T>(request: RequestView<T>) -> Progress<ConfigureView<T>, ReplyView<T>> {
    match request {
        RequestView::ReadConfiguration(device, responses) => Progress::Pending(
            ConfigureView { work: WorkView::Reading(ReadView::begin(device)), responses },
        ),
        RequestView::WriteConfiguration(config, responses) => match WriteView::begin(
            config.device,
            config.groups,
            0,
        ) {
            Progress::Pending(write) => Progress::Pending(
                ConfigureView { work: WorkView::Writing(write), responses },
            ),
            Progress::Ready(config) => Progress::Ready(
                ReplyView { response: ResponseView::Configured(config), responses },
            ),
        },
    }
}

impl<T> ConfigureView<T> {
    /// What a report from the transport does to the request.
    pub open spec fn step(self, report: Seq<u8>) -> Progress<ConfigureView<T>, ReplyView<T>> {
        concluded(self.work.step(report), self.responses)
    }

    /// What a failure of the transport does to the request: it ends, and the
    /// failure is its response.
    pub open spec fn failed(self, error: crate::device::error::Error) -> ReplyView<T> {
        ReplyView {
            response: ResponseView::Error(Error::DeviceError(error)),
            responses: self.responses,
        }
    }
}

impl<T> WorkView<T> {
    /// What came of a read, as the work that it is for a request.
    pub open spec fn reading(
        result: Result<Progress<ReadView<T>, DeviceConfigView<T>>, crate::device::error::Error>,
    ) -> Result<Progress<WorkView<T>, DeviceConfigView<T>>, crate::device::error::Error> {
        match result {
            Ok(Progress::Pending(next)) => Ok(Progress::Pending(WorkView::Reading(next))),
            Ok(Progress::Ready(config)) => Ok(Progress::Ready(config)),
            Err(e) => Err(e),
        }
    }

    /// What came of a commit, as the work that it is for a request.
    pub open spec fn writing(
        result: Result<Progress<WriteView<T>, DeviceConfigView<T>>, crate::device::error::Error>,
    ) -> Result<Progress<WorkView<T>, DeviceConfigView<T>>, crate::device::error::Error> {
        match result {
            Ok(Progress::Pending(next)) => Ok(Progress::Pending(WorkView::Writing(next))),
            Ok(Progress::Ready(config)) => Ok(Progress::Ready(config)),
            Err(e) => Err(e),
        }
    }
}

/// Whether a poll of a request that asks for the read `read` can come to
/// `progress`: the read is polled, and `progress` is what becomes of the
/// request once its work has come to that.
pub open spec fn reading_may_poll<T: AsyncHidDevice<MidiFader>>(
    read: ReadView<T>,
    responses: Sender<Response<T>>,
    progress: Progress<ConfigureView<T>, ReplyView<T>>,
) -> bool {
    exists|result: Result<Progress<ReadView<T>, DeviceConfigView<T>>, crate::device::error::Error>|
     #[trigger]
        read.may_poll(result) && progress == concluded(WorkView::reading(result), responses)
}

/// Whether a poll of a request that asks for the commit `write` can come to
/// `progress`: the commit is polled, and `progress` is what becomes of the
/// request once its work has come to that.
pub open spec fn writing_may_poll<T: AsyncHidDevice<MidiFader>>(
    write: WriteView<T>,
    responses: Sender<Response<T>>,
    progress: Progress<ConfigureView<T>, ReplyView<T>>,
) -> bool {
    exists|
        result: Result<Progress<WriteView<T>, DeviceConfigView<T>>, crate::device::error::Error>,
    | #[trigger]
        write.may_poll(result) && progress == concluded(WorkView::writing(result), responses)
}

impl<T: AsyncHidDevice<MidiFader>> ConfigureView<T> {
    /// Whether a poll of the request can come to `progress`: its read or its
    /// commit is polled, and `progress` is what becomes of the request once
    /// its work has come to that.
    pub open spec fn may_poll(self, progress: Progress<ConfigureView<T>, ReplyView<T>>) -> bool {
        match self.work {
            WorkView::Reading(read) => reading_may_poll(read, self.responses, progress),
            WorkView::Writing(write) => writing_may_poll(write, self.responses, progress),
        }
    }
}

impl<T> View for Work<T> {
    type V = WorkView<T>;

    closed spec fn view(&self) -> WorkView<T> {
        match *self {
            Work::Reading(read) => WorkView::Reading(read@),
            Work::Writing(write) => WorkView::Writing(write@),
        }
    }
}

impl<T> View for Configure<T> {
    type V = ConfigureView<T>;

    closed spec fn view(&self) -> ConfigureView<T> {
        ConfigureView { work: self.work@, responses: self.responses }
    }
}

impl<T> View for Reply<T> {
    type V = ReplyView<T>;

    closed spec fn view(&self) -> ReplyView<T> {
        ReplyView { response: self.response@, responses: self.responses }
    }
}

/// Starts to serve a request.
pub fn configure<T>(request: Request<T>) -> (progress: Progress<Configure<T>, Reply<T>>)
    ensures
        progress@ == started(request@),
{
    match request {
        Request::ReadConfiguration(device, responses) => Progress::Pending(
            Configure { work: Work::Reading(DeviceConfig::new(device)), responses },
        ),
        Request::WriteConfiguration(config, responses) => match config.commit() {
            Progress::Pending(write) => Progress::Pending(
                Configure { work: Work::Writing(write), responses },
            ),
            Progress::Ready(config) => Progress::Ready(
                Reply { response: Response::Configured(config), responses },
            ),
        },
    }
}

impl<T> Configure<T> {
    /// The device that the request is served on.
    pub fn device(&self) -> (device: &T)
        ensures
            *device == self@.work.command().device,
    {
        match &self.work {
            Work::Reading(read) => read.device(),
            Work::Writing(write) => write.device(),
        }
    }

    /// The request to write to the device next, if there is one.
    pub fn request(&self) -> (args: Option<&MidiFaderCommandArgs>)
        ensures
            self@.work.wf(),
            self@.work.command().written ==> args is None,
            !self@.work.command().written ==> args is Some && args->Some_0@
                == self@.work.command().data,
    {
        match &self.work {
            Work::Reading(read) => read.request(),
            Work::Writing(write) => write.request(),
        }
    }

    /// The request was written to the device: from now on the answer is
    /// awaited.
    pub fn written(self) -> (configure: Self)
        ensures
            configure@ == (ConfigureView { work: self@.work.written(), ..self@ }),
    {
        let work = match self.work {
            Work::Reading(read) => Work::Reading(read.written()),
            Work::Writing(write) => Work::Writing(write.written()),
        };
        Configure { work, responses: self.responses }
    }

    /// Takes what the transport read; see `ConfigureView::step`.
    pub fn response(self, report: &[u8]) -> (progress: Progress<Self, Reply<T>>)
        ensures
            progress@ == self@.step(report@),
    {
        let responses = self.responses;
        match self.work {
            Work::Reading(read) => match read.response(report) {
                Ok(Progress::Pending(next)) => Progress::Pending(
                    Configure { work: Work::Reading(next), responses },
                ),
                Ok(Progress::Ready(config)) => Progress::Ready(
                    Reply { response: Response::Configured(config), responses },
                ),
                Err(e) => Progress::Ready(
                    Reply { response: Response::Error(Error::DeviceError(e)), responses },
                ),
            },
            Work::Writing(write) => match write.response(report) {
                Ok(Progress::Pending(next)) => Progress::Pending(
                    Configure { work: Work::Writing(next), responses },
                ),
                Ok(Progress::Ready(config)) => Progress::Ready(
                    Reply { response: Response::Configured(config), responses },
                ),
                Err(e) => Progress::Ready(
                    Reply { response: Response::Error(Error::DeviceError(e)), responses },
                ),
            },
        }
    }

    /// The transport failed: the request ends, and the failure is its
    /// response.
    pub fn fail(self, error: crate::device::error::Error) -> (reply: Reply<T>)
        ensures
            reply@ == self@.failed(error),
    {
        Reply { response: Response::Error(Error::DeviceError(error)), responses: self.responses }
    }
}

impl<T: AsyncHidDevice<MidiFader>> Configure<T> {
    /// Takes the request as far as the device allows right now: its read or
    /// its commit is polled, and what that comes to decides what becomes of
    /// the request, as `ConfigureView::may_poll` says.
    ///
    /// Whatever the device does, the request comes back under way, waiting
    /// for an answer, with the same channel for its response; or with its
    /// response, for the same channel: the configuration if the work is
    /// done, the error if it failed.
    pub fn poll(self) -> (progress: Progress<Self, Reply<T>>)
        ensures
            self@.may_poll(progress@),
            progress matches Progress::Pending(configure) ==> configure@.responses
                == self@.responses && configure@.work.command().written
                && configure@.work.command().device == self@.work.command().device && (
            self@.work is Reading <==> configure@.work is Reading),
            progress matches Progress::Ready(reply) ==> reply@.responses == self@.responses,
            progress matches Progress::Ready(reply) ==> (
            reply@.response matches ResponseView::Configured(config) ==> config.device
                == self@.work.command().device && config.groups.len() == 8 && settled(
                config.groups,
            )),
            progress matches Progress::Ready(reply) ==> (reply@.response matches ResponseView::Error(
                e,
            ) ==> e is DeviceError),
    {
        let responses = self.responses;
        let ghost was = self@;
        match self.work {
            Work::Reading(read) => {
                let result = read.poll();
                let ghost came = outcome_view(result);
                assert(read@.may_poll(came));
                let progress = match result {
                    Ok(Progress::Pending(next)) => Progress::Pending(
                        Configure { work: Work::Reading(next), responses },
                    ),
                    Ok(Progress::Ready(config)) => {
                        proof {
                            let values = choose|values: Seq<i32>|
                                values.len() == 120 && read@.values.is_prefix_of(values)
                                    && config@.groups == read_groups(values);
                            lemma_read_groups(values);
                        }
                        Progress::Ready(
                            Reply { response: Response::Configured(config), responses },
                        )
                    },
                    Err(e) => Progress::Ready(
                        Reply { response: Response::Error(Error::DeviceError(e)), responses },
                    ),
                };
                assert(progress@ == concluded(WorkView::reading(came), was.responses));
                assert(was.work == WorkView::Reading(read@));
                assert(reading_may_poll(read@, was.responses, progress@));
                progress
            },
            Work::Writing(write) => {
                let result = write.poll();
                let ghost came = outcome_view(result);
                assert(write@.may_poll(came));
                let progress = match result {
                    Ok(Progress::Pending(next)) => Progress::Pending(
                        Configure { work: Work::Writing(next), responses },
                    ),
                    Ok(Progress::Ready(config)) => Progress::Ready(
                        Reply { response: Response::Configured(config), responses },
                    ),
                    Err(e) => Progress::Ready(
                        Reply { response: Response::Error(Error::DeviceError(e)), responses },
                    ),
                };
                assert(progress@ == concluded(WorkView::writing(came), was.responses));
                assert(was.work == WorkView::Writing(write@));
                assert(writing_may_poll(write@, was.responses, progress@));
                progress
            },
        }
    }
}

/// `std::sync::mpsc::Sender::send`: the value is handed to the channel, or
/// it comes back where the receiving half is gone. Which of the two happens
/// is not for the sender to see beforehand.
#[verifier::external_body]
fn send<T>(responses: &Sender<Response<T>>, response: Response<T>) -> (sent: Result<
    (),
    Response<T>,
>)
    ensures
        sent matches Err(back) ==> back == response,
{
    responses.send(response).map_err(|e| e.0)
}

/// What the configurator makes of an attempt to deliver a response: it goes
/// on if the response is out, and ends with `SendError` if it came back.
pub fn delivered<T>(sent: Result<(), Response<T>>) -> (outcome: Result<(), Error>)
    ensures
        outcome == (match sent {
            Ok(_) => Ok::<(), Error>(()),
            Err(_) => Err::<(), Error>(Error::SendError),
        }),
{
    match sent {
        Ok(()) => Ok(()),
        Err(_) => Err(Error::SendError),
    }
}

/// What the queue of requests gave to a configurator that asked for the
/// next request.
#[verifier::reject_recursive_types(T)]
#[derive(Debug)]
pub enum Received<T> {
    /// The next request.
    Request(Request<T>),
    /// The queue is closed: no request will come any more.
    Closed,
    /// The queue failed.
    Failed,
}

/// The configurator: idle between two requests, or busy with one.
#[verifier::reject_recursive_types(T)]
pub enum Configurator<T> {
    /// No request is under way: the next one can be taken from the queue.
    Idle,
    /// A request is under way, and the device has to answer before anything
    /// else happens.
    Busy(Configure<T>),
}

/// What a `Configurator` holds.
#[verifier::reject_recursive_types(T)]
pub ghost enum ConfiguratorView<T> {
    Idle,
    Busy(ConfigureView<T>),
}

impl<T> View for Configurator<T> {
    type V = ConfiguratorView<T>;

    open spec fn view(&self) -> ConfiguratorView<T> {
        match *self {
            Configurator::Idle => ConfiguratorView::Idle,
            Configurator::Busy(configure) => ConfiguratorView::Busy(configure@),
        }
    }
}

impl<T> Received<T> {
    /// What an idle configurator does with what the queue gave. It ends, in
    /// good order, once the queue is closed: the result is `None`. It ends
    /// with `RecvError` where the queue failed. It starts to serve a request
    /// and is busy with it; a request that is served at once has its response
    /// sent at once, after which the configurator is idle again, or has
    /// ended with `SendError` where the response could not be delivered.
    pub fn receive(self) -> (next: Result<Option<Configurator<T>>, Error>)
        ensures
            self is Closed ==> next matches Ok(None),
            self is Failed ==> next == Err::<Option<Configurator<T>>, Error>(Error::RecvError),
            self matches Received::Request(request) ==> (match started(request@) {
                Progress::Pending(configure) => next matches Ok(Some(Configurator::Busy(busy)))
                    && busy@ == configure,
                Progress::Ready(_) => next matches Ok(Some(Configurator::Idle)) || next == Err::<
                    Option<Configurator<T>>,
                    Error,
                >(Error::SendError),
            }),
    {
        match self {
            Received::Closed => Ok(None),
            Received::Failed => Err(Error::RecvError),
            Received::Request(request) => match configure(request) {
                Progress::Pending(work) => Ok(Some(Configurator::Busy(work))),
                Progress::Ready(reply) => match reply.send() {
                    Ok(()) => Ok(Some(Configurator::Idle)),
                    Err(e) => Err(e),
                },
            },
        }
    }
}

impl<T> ConfiguratorView<T> {
    /// What a busy configurator makes of a poll of its request that came to
    /// `progress`, and of the attempt to send the response, where there is
    /// one to send, that came to `sent`. It stays busy with a request that is
    /// still under way. Once the response is out it is idle. Where the
    /// response could not be sent, it ends with the error of the attempt.
    pub open spec fn polled(
        progress: Progress<ConfigureView<T>, ReplyView<T>>,
        sent: Result<(), Error>,
    ) -> Result<ConfiguratorView<T>, Error> {
        match progress {
            Progress::Pending(configure) => Ok(ConfiguratorView::Busy(configure)),
            Progress::Ready(_) => match sent {
                Ok(_) => Ok(ConfiguratorView::Idle),
                Err(e) => Err(e),
            },
        }
    }
}

impl<T: AsyncHidDevice<MidiFader>> ConfiguratorView<T> {
    /// Whether a poll of the configurator can come to `next`. An idle
    /// configurator stays idle. The request of a busy one is polled, and
    /// `next` is what the configurator makes of what that came to and of an
    /// attempt to send, which either succeeds or fails with `SendError`.
    pub open spec fn may_poll(self, next: Result<ConfiguratorView<T>, Error>) -> bool {
        match self {
            ConfiguratorView::Idle => next == Ok::<ConfiguratorView<T>, Error>(
                ConfiguratorView::Idle,
            ),
            ConfiguratorView::Busy(configure) => exists|
                progress: Progress<ConfigureView<T>, ReplyView<T>>,
            | #[trigger]
                configure.may_poll(progress) && (next == Self::polled(progress, Ok(())) || next
                    == Self::polled(progress, Err(Error::SendError))),
        }
    }
}

/// What a poll of a configurator came to, in terms of what the configurator
/// holds.
pub open spec fn configurator_poll_view<T>(next: Result<Configurator<T>, Error>) -> Result<
    ConfiguratorView<T>,
    Error,
> {
    match next {
        Ok(configurator) => Ok(configurator@),
        Err(e) => Err(e),
    }
}

impl<T> Configurator<T> {
    /// What the configurator makes of an attempt to send a response that
    /// came to `outcome`: it is idle once the response is out, and ends with
    /// the error where there is one.
    pub fn sent(outcome: Result<(), Error>) -> (next: Result<Self, Error>)
        ensures
            configurator_poll_view(next) == (match outcome {
                Ok(_) => Ok::<ConfiguratorView<T>, Error>(ConfiguratorView::Idle),
                Err(e) => Err::<ConfiguratorView<T>, Error>(e),
            }),
    {
        match outcome {
            Ok(()) => Ok(Configurator::Idle),
            Err(e) => Err(e),
        }
    }
}

impl<T: AsyncHidDevice<MidiFader>> Configurator<T> {
    /// Takes the request that is under way as far as the device allows right
    /// now, and sends its response once it is served. What the poll comes to
    /// follows from what the device did and from whether the response could
    /// be sent, as `ConfiguratorView::may_poll` says.
    ///
    /// Whatever the device does, an idle configurator stays idle. A busy one
    /// stays busy with its request, which waits for an answer of the device;
    /// or it is idle again, the response being out; or it has ended with
    /// `SendError`, and with no other error, the response having come back.
    pub fn poll(self) -> (next: Result<Self, Error>)
        ensures
            self@.may_poll(configurator_poll_view(next)),
            self is Idle ==> next matches Ok(Configurator::Idle),
            next matches Ok(Configurator::Busy(busy)) ==> (self matches Configurator::Busy(was)
                && busy@.responses == was@.responses && busy@.work.command().written
                && busy@.work.command().device == was@.work.command().device),
            next matches Err(e) ==> self is Busy && e == Error::SendError,
    {
        match self {
            Configurator::Idle => Ok(Configurator::Idle),
            Configurator::Busy(work) => {
                let progress = work.poll();
                assert(work@.may_poll(progress@));
                match progress {
                    Progress::Pending(work) => Ok(Configurator::Busy(work)),
                    Progress::Ready(reply) => Self::sent(reply.send()),
                }
            },
        }
    }
}

impl<T> Reply<T> {
    /// The response that goes out.
    pub fn response(&self) -> (response: &Response<T>)
        ensures
            response@ == self@.response,
    {
        &self.response
    }

    /// Sends the response on its way. Where nobody waits for it any more,
    /// this fails with `SendError`, and with nothing else.
    pub fn send(self) -> (outcome: Result<(), Error>)
        ensures
            outcome is Err ==> outcome == Err::<(), Error>(Error::SendError),
    {
        delivered(send(&self.responses, self.response))
    }
}

} // verus!
