//! Reading the configuration of a device: 120 parameters, one after the
//! other.

use crate::config::array::read_all;
use crate::config::device_config::DeviceConfig;
use crate::config::device_config::DeviceConfigView;
use crate::config::group::GroupConfig;
use crate::config::plan::indexed;
use crate::config::plan::lemma_read_groups;
use crate::config::plan::read_address;
use crate::config::plan::read_groups;
use crate::config::plan::read_plan;
use crate::config::plan::settled;
use crate::device::command::outcome_view;
use crate::device::command::CommandView;
use crate::device::command::Progress;
use crate::device::error::Error;
use crate::device::parameter::get_parameter_answer;
use crate::device::parameter::get_parameter_may_poll;
use crate::device::parameter::get_parameter_poll_view;
use crate::device::parameter::get_parameter_request;
use crate::device::parameter::GetParameter;
use crate::device::parameter::ParameterValue;
use crate::device::report::frame_with_report;
use crate::device::report::MidiFaderCommandArgs;
use crate::device::transport::AsyncHidDevice;
use crate::device::transport::MidiFader;
use vstd::prelude::*;

verus! {

/// A read of the whole configuration that is under way: the integers got so
/// far, and the command that asks for the next one. The command holds the
/// device.
pub struct ReadConfiguration<T> {
    values: Vec<i32>,
    command: GetParameter<T>,
}

/// What a `ReadConfiguration` holds. The number of values is the position
/// that the read has reached.
pub ghost struct ReadView<T> {
    pub values: Seq<i32>,
    pub command: CommandView<T>,
}

impl<T> ReadView<T> {
    /// The read on `device` that has got `values` so far and is about to ask
    /// for the next parameter.
    pub open spec fn at(device: T, values: Seq<i32>) -> ReadView<T> {
        ReadView {
            values,
            command: CommandView {
                device,
                data: get_parameter_request(read_address(values.len() as int)),
                written: false,
            },
        }
    }

    /// The read at its start.
    pub open spec fn begin(device: T) -> ReadView<T> {
        Self::at(device, Seq::empty())
    }

    /// A read is under way as long as parameters are missing; its command
    /// asks for the first that is.
    pub open spec fn wf(self) -> bool {
        &&& self.values.len() < 120
        &&& self.command.data == get_parameter_request(read_address(self.values.len() as int))
    }

    /// The read once the request of its command was written.
    pub open spec fn written(self) -> ReadView<T> {
        ReadView { command: self.command.written(), ..self }
    }

    /// What a report from the transport does to the read. Only a full report
    /// that comes after the request was written is an answer. An answer that
    /// holds an error ends the read with that error. One that holds a value
    /// takes the read to the next parameter, or ends it with the
    /// configuration if it was the last.
    pub open spec fn step(self, report: Seq<u8>) -> Result<
        Progress<ReadView<T>, DeviceConfigView<T>>,
        Error,
    > {
        if !self.command.answered_by(report) {
            Ok(Progress::Pending(self))
        } else {
            match get_parameter_answer(self.command.answer(report)) {
                Err(e) => Err(e),
                Ok(value) => {
                    let values = self.values.push(value.value);
                    if values.len() == 120 {
                        Ok(
                            Progress::Ready(
                                DeviceConfigView {
                                    device: self.command.device,
                                    groups: read_groups(values),
                                },
                            ),
                        )
                    } else {
                        Ok(Progress::Pending(Self::at(self.command.device, values)))
                    }
                },
            }
        }
    }
}

impl<T> ReadView<T> {
    /// What the read makes of a poll of its command that came to `inner`. A
    /// failure is the failure of the read. A command that waits leaves the
    /// read waiting. A value takes the read to the next parameter, or ends
    /// it with the configuration if it was the last.
    pub open spec fn polled(
        self,
        inner: Result<Progress<CommandView<T>, (T, ParameterValue)>, Error>,
    ) -> Result<Progress<ReadView<T>, DeviceConfigView<T>>, Error> {
        match inner {
            Err(e) => Err(e),
            Ok(Progress::Pending(command)) => Ok(Progress::Pending(ReadView { command, ..self })),
            Ok(Progress::Ready((device, value))) => {
                let values = self.values.push(value.value);
                if values.len() == 120 {
                    Ok(Progress::Ready(DeviceConfigView { device, groups: read_groups(values) }))
                } else {
                    Ok(Progress::Pending(Self::at(device, values)))
                }
            },
        }
    }

    /// Whether the read, after a poll of its command that came to `inner`,
    /// goes on at once with the next parameter: it does after a value that is
    /// not the last.
    pub open spec fn goes_on(
        self,
        inner: Result<Progress<CommandView<T>, (T, ParameterValue)>, Error>,
    ) -> bool {
        inner matches Ok(Progress::Ready(_)) && self.values.len() + 1 < 120
    }
}

impl<T: AsyncHidDevice<MidiFader>> ReadView<T> {
    /// Whether a poll of the read can come to `result`. The command of the
    /// read is polled. Where the read goes on at once after that, what the
    /// poll comes to is what a poll of the read at the next parameter comes
    /// to; else it is what the read makes of what the poll of its command
    /// came to.
    pub open spec fn may_poll(
        self,
        result: Result<Progress<ReadView<T>, DeviceConfigView<T>>, Error>,
    ) -> bool
        decreases 120 - self.values.len(),
    {
        exists|inner: Result<Progress<CommandView<T>, (T, ParameterValue)>, Error>| #[trigger]
            get_parameter_may_poll(self.command, inner) && (if self.goes_on(inner) {
                self.polled(inner)->Ok_0->Pending_0.may_poll(result)
            } else {
                result == self.polled(inner)
            })
    }
}

impl<T> View for ReadConfiguration<T> {
    type V = ReadView<T>;

    closed spec fn view(&self) -> ReadView<T> {
        ReadView { values: self.values@, command: self.command@ }
    }
}

/// The read order: a read that has got `k` values asks for the parameter
/// that the plan names at `k`.
pub proof fn lemma_read_order<T>(read: ReadView<T>)
    requires
        read.wf(),
    ensures
        read.command.data == get_parameter_request(read_plan()[read.values.len() as int]),
{
}

/// Every answer takes a read one parameter further, with the same device;
/// the 120th ends it, and no earlier one does.
pub proof fn lemma_read_step<T>(read: ReadView<T>, report: Seq<u8>)
    requires
        read.wf(),
        read.command.answered_by(report),
    ensures
        match read.step(report) {
            Ok(Progress::Pending(next)) => next.wf() && next.values.len() == read.values.len() + 1
                && read.values.len() < 119 && next.command.device == read.command.device
                && !next.command.written,
            Ok(Progress::Ready(config)) => read.values.len() == 119 && config.device
                == read.command.device && config.groups.len() == 8,
            Err(e) => get_parameter_answer(read.command.answer(report)) == Err::<
                crate::device::parameter::ParameterValue,
                Error,
            >(e),
        },
{
}

/// The frame in which a device answers a request for the value at `address`
/// with `report`.
pub open spec fn read_answer(address: u16, report: Seq<u8>) -> Seq<u8> {
    frame_with_report(get_parameter_request(address), report)
}

/// Whether the first `count` of the reports are answers that hold a value,
/// each to the request that the plan names at its place.
pub open spec fn read_answered(reports: Seq<Seq<u8>>, count: int) -> bool {
    forall|i: int|
        0 <= i < count ==> (#[trigger] reports[i]).len() == 64 && get_parameter_answer(
            read_answer(read_plan()[i], reports[i]),
        ) is Ok
}

/// The integers that the first `count` of the reports hold.
pub open spec fn read_values(reports: Seq<Seq<u8>>, count: int) -> Seq<i32> {
    Seq::new(
        count as nat,
        |i: int| get_parameter_answer(read_answer(read_plan()[i], reports[i]))->Ok_0.value,
    )
}

/// The read on `device` after the first `count` of the reports came in, each
/// after the request before it was written; `None` once the read is over.
pub open spec fn read_after<T>(device: T, reports: Seq<Seq<u8>>, count: int) -> Option<ReadView<T>>
    decreases count,
{
    if count <= 0 {
        Some(ReadView::begin(device))
    } else {
        match read_after(device, reports, count - 1) {
            Some(read) => match read.written().step(reports[count - 1]) {
                Ok(Progress::Pending(next)) => Some(next),
                _ => None,
            },
            None => None,
        }
    }
}

/// The full read order: as long as the device answers each request with a
/// value, a read asks for the parameters of the plan one by one, in the
/// order of the plan, and holds the values that came so far.
pub proof fn lemma_read_run<T>(device: T, reports: Seq<Seq<u8>>, count: int)
    requires
        0 <= count < 120,
        count <= reports.len(),
        read_answered(reports, count),
    ensures
        read_after(device, reports, count) == Some(
            ReadView::at(device, read_values(reports, count)),
        ),
        ReadView::at(device, read_values(reports, count)).command.data == get_parameter_request(
            read_plan()[count],
        ),
    decreases count,
{
    if count > 0 {
        lemma_read_run(device, reports, count - 1);
        let before = ReadView::at(device, read_values(reports, count - 1));
        assert(reports[count - 1].len() == 64);
        assert(before.written().command.answer(reports[count - 1]) == read_answer(
            read_plan()[count - 1],
            reports[count - 1],
        ));
        assert(read_values(reports, count - 1).push(
            get_parameter_answer(
                read_answer(read_plan()[count - 1], reports[count - 1]),
            )->Ok_0.value,
        ) =~= read_values(reports, count));
    } else {
        assert(read_values(reports, 0) =~= Seq::<i32>::empty());
    }
}

/// The end of a full read: the 120th answer, and no earlier one, ends the
/// read, with the device that it began with and the configuration that the
/// 120 values describe.
pub proof fn lemma_read_run_ends<T>(device: T, reports: Seq<Seq<u8>>)
    requires
        reports.len() == 120,
        read_answered(reports, 120),
    ensures
        read_after(device, reports, 119) matches Some(read) && read.written().step(reports[119])
            == Ok::<Progress<ReadView<T>, DeviceConfigView<T>>, Error>(
            Progress::Ready(
                DeviceConfigView { device, groups: read_groups(read_values(reports, 120)) },
            ),
        ),
{
    lemma_read_run(device, reports, 119);
    let before = ReadView::at(device, read_values(reports, 119));
    assert(reports[119].len() == 64);
    assert(before.written().command.answer(reports[119]) == read_answer(
        read_plan()[119],
        reports[119],
    ));
    assert(read_values(reports, 119).push(
        get_parameter_answer(read_answer(read_plan()[119], reports[119]))->Ok_0.value,
    ) =~= read_values(reports, 120));
}

impl<T> ReadConfiguration<T> {
    #[verifier::type_invariant]
    spec fn under_way(self) -> bool {
        self@.wf()
    }

    /// The read on `device` that has got `values` so far.
    fn ask(device: T, values: Vec<i32>) -> (read: Self)
        requires
            values@.len() < 120,
        ensures
            read@ == ReadView::at(device, values@),
    {
        let position = values.len();
        let address = GroupConfig::index_parameter((position / 15) as u32, position % 15);
        ReadConfiguration { values, command: GetParameter::new(device, address) }
    }

    /// Starts to read the configuration of `device`.
    pub fn new(device: T) -> (read: Self)
        ensures
            read@ == ReadView::begin(device),
    {
        Self::ask(device, Vec::new())
    }

    /// The device that is read.
    pub fn device(&self) -> (device: &T)
        ensures
            *device == self@.command.device,
    {
        self.command.device()
    }

    /// The number of parameters that were read so far.
    pub fn position(&self) -> (position: usize)
        ensures
            position == self@.values.len(),
            position < 120,
    {
        proof {
            use_type_invariant(self);
        }
        self.values.len()
    }

    /// The request to write next, if there is one: the request for the
    /// parameter at the position of the read, as long as it has not been
    /// written.
    pub fn request(&self) -> (args: Option<&MidiFaderCommandArgs>)
        ensures
            self@.wf(),
            self@.command.written ==> args is None,
            !self@.command.written ==> args is Some && args->Some_0@ == self@.command.data
                && args->Some_0@ == get_parameter_request(read_plan()[self@.values.len() as int]),
    {
        proof {
            use_type_invariant(self);
        }
        self.command.request()
    }

    /// The request was written: from now on the answer is awaited.
    pub fn written(self) -> (read: Self)
        ensures
            read@ == (ReadView {
                command: CommandView { written: true, ..self@.command },
                ..self@
            }),
    {
        proof {
            use_type_invariant(&self);
        }
        ReadConfiguration { values: self.values, command: self.command.written() }
    }

    /// Takes what the transport read; see `ReadView::step`.
    pub fn response(self, report: &[u8]) -> (progress: Result<
        Progress<Self, DeviceConfig<T>>,
        Error,
    >)
        ensures
            self@.wf(),
            outcome_view(progress) == self@.step(report@),
    {
        proof {
            use_type_invariant(&self);
        }
        let mut values = self.values;
        match self.command.response(report) {
            Err(e) => Err(e),
            Ok(Progress::Pending(command)) => Ok(
                Progress::Pending(ReadConfiguration { values, command }),
            ),
            Ok(Progress::Ready((device, value))) => {
                values.push(value.value());
                if values.len() == 120 {
                    let groups = read_all(values.as_slice());
                    Ok(Progress::Ready(DeviceConfig::from_parts(device, groups)))
                } else {
                    Ok(Progress::Pending(Self::ask(device, values)))
                }
            },
        }
    }
}

impl<T: AsyncHidDevice<MidiFader>> ReadConfiguration<T> {
    /// Takes the read as far as the device allows right now: one parameter
    /// after the other, each asked for once the one before it is answered,
    /// until the device has nothing to read yet or the last is in. What the
    /// poll comes to follows from what the device did, as `ReadView::may_poll`
    /// says.
    ///
    /// Whatever the device does, the read comes back waiting for an answer,
    /// with what it had got before and the same device; or done, with a
    /// configuration made of what it had got before and what came now; or it
    /// has failed, with the error of the transport or of an answer.
    pub fn poll(self) -> (progress: Result<Progress<Self, DeviceConfig<T>>, Error>)
        ensures
            self@.wf(),
            self@.may_poll(outcome_view(progress)),
            progress matches Ok(Progress::Pending(read)) ==> read@.wf() && read@.command.written
                && read@.command.device == self@.command.device && self@.values.is_prefix_of(
                read@.values,
            ),
            progress matches Ok(Progress::Ready(config)) ==> config@.device
                == self@.command.device && config@.groups.len() == 8 && indexed(config@.groups)
                && settled(config@.groups) && exists|values: Seq<i32>|
                values.len() == 120 && self@.values.is_prefix_of(values) && config@.groups
                    == read_groups(values),
    {
        proof {
            use_type_invariant(&self);
        }
        let ghost start = self@;
        let mut values = self.values;
        let mut command = self.command;
        loop
            invariant
                start == self@,
                start.wf(),
                values@.len() < 120,
                command@.data == get_parameter_request(read_address(values@.len() as int)),
                command@.device == start.command.device,
                start.values.is_prefix_of(values@),
                forall|result: Result<Progress<ReadView<T>, DeviceConfigView<T>>, Error>|
                    (#[trigger] (ReadView { values: values@, command: command@ }).may_poll(result))
                        ==> start.may_poll(result),
            decreases 120 - values@.len(),
        {
            let ghost here = ReadView { values: values@, command: command@ };
            let inner = command.poll();
            let ghost came = get_parameter_poll_view(inner);
            match inner {
                Err(e) => {
                    proof {
                        let result = Err::<Progress<ReadView<T>, DeviceConfigView<T>>, Error>(e);
                        assert(get_parameter_may_poll(here.command, came) && !here.goes_on(came)
                            && result == here.polled(came));
                        assert(here.may_poll(result));
                    }
                    return Err(e);
                },
                Ok(Progress::Pending(waiting)) => {
                    let read = ReadConfiguration { values, command: waiting };
                    proof {
                        let result = Ok::<Progress<ReadView<T>, DeviceConfigView<T>>, Error>(
                            Progress::Pending(read@),
                        );
                        assert(get_parameter_may_poll(here.command, came) && !here.goes_on(came)
                            && result == here.polled(came));
                        assert(here.may_poll(result));
                    }
                    return Ok(Progress::Pending(read));
                },
                Ok(Progress::Ready((device, value))) => {
                    let ghost before = values@;
                    values.push(value.value());
                    assert(before.is_prefix_of(values@)) by {
                        assert(values@.subrange(0, before.len() as int) =~= before);
                    }
                    assert(start.values.is_prefix_of(values@)) by {
                        assert(values@.subrange(0, start.values.len() as int) =~= before.subrange(
                            0,
                            start.values.len() as int,
                        ));
                    }
                    if values.len() == 120 {
                        let groups = read_all(values.as_slice());
                        let config = DeviceConfig::from_parts(device, groups);
                        proof {
                            lemma_read_groups(values@);
                            let result = Ok::<Progress<ReadView<T>, DeviceConfigView<T>>, Error>(
                                Progress::Ready(config@),
                            );
                            assert(get_parameter_may_poll(here.command, came) && !here.goes_on(
                                came,
                            ) && result == here.polled(came));
                            assert(here.may_poll(result));
                        }
                        return Ok(Progress::Ready(config));
                    }
                    let position = values.len();
                    let address = GroupConfig::index_parameter(
                        (position / 15) as u32,
                        position % 15,
                    );
                    command = GetParameter::new(device, address);
                    proof {
                        let next = ReadView { values: values@, command: command@ };
                        assert(here.goes_on(came));
                        assert(here.polled(came)->Ok_0->Pending_0 == next);
                        assert forall|result: Result<Progress<ReadView<T>, DeviceConfigView<T>>, Error>|
                            #[trigger] next.may_poll(result) implies start.may_poll(result) by {
                            assert(get_parameter_may_poll(here.command, came));
                            assert(here.may_poll(result));
                        }
                    }
                },
            }
        }
    }
}

impl<T> DeviceConfig<T> {
    /// Starts to read the configuration of `device`: see `ReadConfiguration`.
    pub fn new(device: T) -> (read: ReadConfiguration<T>)
        ensures
            read@ == ReadView::begin(device),
    {
        ReadConfiguration::new(device)
    }
}

} // verus!
