//! Committing a configuration: every change that waits is written to the
//! device, in the order of the positions, and nothing else is.

use crate::config::array::groups_view;
use crate::config::device_config::DeviceConfig;
use crate::config::device_config::DeviceConfigView;
use crate::config::group::GroupConfig;
use crate::config::group::GroupConfigView;
use crate::config::plan::committed_at;
use crate::config::plan::lemma_committed;
use crate::config::plan::lemma_next_update;
use crate::config::plan::lemma_settled;
use crate::config::plan::lemma_update_positions;
use crate::config::plan::lemma_writes_after_commit;
use crate::config::plan::lemma_writes_unfold;
use crate::config::plan::next_update;
use crate::config::plan::settled;
use crate::config::plan::update_at;
use crate::config::plan::write_at;
use crate::config::plan::writes;
use crate::config::plan::Write;
use crate::device::command::outcome_view;
use crate::device::command::CommandView;
use crate::device::command::Progress;
use crate::device::error::Error;
use crate::device::parameter::answer_status;
use crate::device::parameter::set_parameter_may_poll;
use crate::device::parameter::set_parameter_poll_view;
use crate::device::parameter::set_parameter_request;
use crate::device::parameter::SetParameter;
use crate::device::report::frame_with_report;
use crate::device::report::MidiFaderCommandArgs;
use crate::device::transport::AsyncHidDevice;
use crate::device::transport::MidiFader;
use vstd::prelude::*;

verus! {

/// A commit that is under way: the channels, the position of the change
/// that is being written, and the command that writes it. The command holds
/// the device.
pub struct WriteConfiguration<T> {
    groups: [GroupConfig; 8],
    position: usize,
    command: SetParameter<T>,
}

/// What a `WriteConfiguration` holds.
pub ghost struct WriteView<T> {
    pub groups: Seq<GroupConfigView>,
    pub position: int,
    pub command: CommandView<T>,
}

/// Whether nothing waits before `position`.
pub open spec fn settled_before(groups: Seq<GroupConfigView>, position: int) -> bool {
    forall|p: int| 0 <= p < position ==> update_at(groups, p) is None
}

/// The frame that asks for a write.
pub open spec fn write_request(write: Write) -> Seq<u8> {
    set_parameter_request(write.address, write.value)
}

impl<T> WriteView<T> {
    /// The commit of `groups` on `device` once everything before `from` is
    /// dealt with: the write of the first change that waits from there on,
    /// or the end of the commit if none does.
    pub open spec fn begin(device: T, groups: Seq<GroupConfigView>, from: int) -> Progress<
        WriteView<T>,
        DeviceConfigView<T>,
    > {
        let position = next_update(groups, from);
        if position >= 120 {
            Progress::Ready(DeviceConfigView { device, groups })
        } else {
            Progress::Pending(
                WriteView {
                    groups,
                    position,
                    command: CommandView {
                        device,
                        data: write_request(write_at(groups, position)),
                        written: false,
                    },
                },
            )
        }
    }

    /// A commit is under way as long as a change is being written; its
    /// command writes the change at its position, and nothing waits before
    /// that position.
    pub open spec fn wf(self) -> bool {
        &&& self.groups.len() == 8
        &&& 0 <= self.position < 120
        &&& update_at(self.groups, self.position) is Some
        &&& self.command.data == write_request(write_at(self.groups, self.position))
        &&& settled_before(self.groups, self.position)
    }

    /// The commit once the request of its command was written.
    pub open spec fn written(self) -> WriteView<T> {
        WriteView { command: self.command.written(), ..self }
    }

    /// The writes that the commit still has to make, the one under way first.
    pub open spec fn remaining(self) -> Seq<Write> {
        writes(self.groups, self.position)
    }

    /// What a report from the transport does to the commit. Only a full
    /// report that comes after the request was written is an answer. An
    /// answer that holds an error ends the commit with that error. One that
    /// reports success settles the parameter at the position and takes the
    /// commit to the next change that waits, or ends it with the
    /// configuration if there is none.
    pub open spec fn step(self, report: Seq<u8>) -> Result<
        Progress<WriteView<T>, DeviceConfigView<T>>,
        Error,
    > {
        if !self.command.answered_by(report) {
            Ok(Progress::Pending(self))
        } else {
            match answer_status(self.command.answer(report)) {
                Err(e) => Err(e),
                Ok(_) => Ok(
                    Self::begin(
                        self.command.device,
                        committed_at(self.groups, self.position),
                        self.position + 1,
                    ),
                ),
            }
        }
    }
}

impl<T> WriteView<T> {
    /// What the commit makes of a poll of its command that came to `inner`.
    /// A failure is the failure of the commit. A command that waits leaves
    /// the commit waiting. Success settles the parameter at the position and
    /// takes the commit to the next change that waits, or ends it with the
    /// configuration if there is none.
    pub open spec fn polled(self, inner: Result<Progress<CommandView<T>, T>, Error>) -> Result<
        Progress<WriteView<T>, DeviceConfigView<T>>,
        Error,
    > {
        match inner {
            Err(e) => Err(e),
            Ok(Progress::Pending(command)) => Ok(Progress::Pending(WriteView { command, ..self })),
            Ok(Progress::Ready(device)) => Ok(
                Self::begin(device, committed_at(self.groups, self.position), self.position + 1),
            ),
        }
    }

    /// Whether the commit, after a poll of its command that came to `inner`,
    /// goes on at once with the next write: it does after a success behind
    /// which a change still waits.
    pub open spec fn goes_on(self, inner: Result<Progress<CommandView<T>, T>, Error>) -> bool {
        inner matches Ok(Progress::Ready(_)) && (self.polled(inner) matches Ok(
            Progress::Pending(next),
        ) && self.position < next.position < 120)
    }
}

impl<T: AsyncHidDevice<MidiFader>> WriteView<T> {
    /// Whether a poll of the commit can come to `result`. The command of the
    /// commit is polled. Where the commit goes on at once after that, what
    /// the poll comes to is what a poll of the commit at the next write comes
    /// to; else it is what the commit makes of what the poll of its command
    /// came to.
    pub open spec fn may_poll(
        self,
        result: Result<Progress<WriteView<T>, DeviceConfigView<T>>, Error>,
    ) -> bool
        decreases 120 - self.position,
    {
        exists|inner: Result<Progress<CommandView<T>, T>, Error>| #[trigger]
            set_parameter_may_poll(self.command, inner) && (if self.goes_on(inner) {
                self.polled(inner)->Ok_0->Pending_0.may_poll(result)
            } else {
                result == self.polled(inner)
            })
    }
}

impl<T> View for WriteConfiguration<T> {
    type V = WriteView<T>;

    closed spec fn view(&self) -> WriteView<T> {
        WriteView {
            groups: groups_view(self.groups@),
            position: self.position as int,
            command: self.command@,
        }
    }
}

/// The minimal write, at the start: a commit that finds nothing to write
/// ends at once, with the configuration as it was and without a request;
/// otherwise its first request is the first of the writes that the
/// configuration asks for, and all of them remain to be made.
pub proof fn lemma_commit_begin<T>(device: T, groups: Seq<GroupConfigView>)
    requires
        groups.len() == 8,
    ensures
        match WriteView::begin(device, groups, 0) {
            Progress::Ready(config) => writes(groups, 0) == Seq::<Write>::empty() && config == (
            DeviceConfigView { device, groups }) && settled(groups),
            Progress::Pending(write) => write.wf() && write.remaining() == writes(groups, 0)
                && write.remaining().len() > 0 && write.command.data == write_request(
                write.remaining()[0],
            ) && write.groups == groups && write.command.device == device,
        },
{
    lemma_next_update(groups, 0);
    lemma_writes_unfold(groups, 0);
    let position = next_update(groups, 0);
    if position >= 120 {
        lemma_settled(groups);
    } else {
        lemma_writes_unfold(groups, position);
        lemma_next_update(groups, position);
    }
}

/// The minimal write, step by step: the request under way is the first of
/// the writes that remain. An answer that reports success takes that write
/// off and leaves the others, with the same device; the commit ends when
/// none is left, and then nothing waits in the configuration any more.
pub proof fn lemma_commit_step<T>(write: WriteView<T>, report: Seq<u8>)
    requires
        write.wf(),
        write.command.answered_by(report),
    ensures
        write.remaining().len() > 0,
        write.command.data == write_request(write.remaining()[0]),
        match write.step(report) {
            Ok(Progress::Pending(next)) => next.wf() && next.remaining()
                == write.remaining().drop_first() && next.remaining().len() > 0
                && next.command.device == write.command.device && !next.command.written,
            Ok(Progress::Ready(config)) => write.remaining().len() == 1 && config.device
                == write.command.device && config.groups == committed_at(
                write.groups,
                write.position,
            ) && settled(config.groups),
            Err(e) => answer_status(write.command.answer(report)) == Err::<(), Error>(e),
        },
{
    let groups = write.groups;
    let position = write.position;
    let after = committed_at(groups, position);
    lemma_next_update(groups, position);
    lemma_writes_unfold(groups, position);
    lemma_writes_after_commit(groups, position, position + 1);
    lemma_committed(groups, position, position);
    lemma_next_update(after, position + 1);
    lemma_writes_unfold(after, position + 1);
    let next = next_update(after, position + 1);
    assert(write.remaining().drop_first() =~= writes(groups, position + 1));
    assert forall|p: int| 0 <= p < next implies update_at(after, p) is None by {
        if p <= position {
            lemma_committed(groups, position, p);
        }
    }
    if next < 120 {
        lemma_writes_unfold(after, next);
        lemma_next_update(after, next);
    } else {
        lemma_settled(after);
    }
}

/// Whether the first `count` of the reports are answers that report
/// success, each to the write at its place among `writes`.
pub open spec fn commit_answered(writes: Seq<Write>, reports: Seq<Seq<u8>>, count: int) -> bool {
    forall|i: int|
        0 <= i < count ==> (#[trigger] reports[i]).len() == 64 && answer_status(
            frame_with_report(write_request(writes[i]), reports[i]),
        ) is Ok
}

/// The commit of `groups` on `device` after the first `count` of the reports
/// came in, each after the request before it was written; `None` once the
/// commit has failed or is over.
pub open spec fn commit_after<T>(
    device: T,
    groups: Seq<GroupConfigView>,
    reports: Seq<Seq<u8>>,
    count: int,
) -> Option<Progress<WriteView<T>, DeviceConfigView<T>>>
    decreases count,
{
    if count <= 0 {
        Some(WriteView::begin(device, groups, 0))
    } else {
        match commit_after(device, groups, reports, count - 1) {
            Some(Progress::Pending(write)) => match write.written().step(reports[count - 1]) {
                Ok(progress) => Some(progress),
                Err(_) => None,
            },
            _ => None,
        }
    }
}

/// The minimal write, from start to end: as long as the device reports
/// success, a commit makes the writes that its configuration asks for, one
/// for each change that waits, in the order of the positions, and no other.
/// After the last of them it is done, with the device that it began with and
/// with nothing left to write; where there is none, it is done at once.
pub proof fn lemma_commit_run<T>(
    device: T,
    groups: Seq<GroupConfigView>,
    reports: Seq<Seq<u8>>,
    count: int,
)
    requires
        groups.len() == 8,
        0 <= count <= writes(groups, 0).len(),
        count <= reports.len(),
        commit_answered(writes(groups, 0), reports, count),
    ensures
        count < writes(groups, 0).len() ==> (commit_after(device, groups, reports, count) matches Some(
            Progress::Pending(write),
        ) && write.wf() && !write.command.written && write.command.device == device
            && write.command.data == write_request(writes(groups, 0)[count]) && write.remaining()
            == writes(groups, 0).skip(count)),
        count == writes(groups, 0).len() ==> (commit_after(
            device,
            groups,
            reports,
            count,
        ) matches Some(Progress::Ready(config)) && config.device == device && settled(
            config.groups,
        )),
    decreases count,
{
    let all = writes(groups, 0);
    if count == 0 {
        lemma_commit_begin(device, groups);
        assert(all.skip(0) =~= all);
    } else {
        lemma_commit_run(device, groups, reports, count - 1);
        let write = commit_after(device, groups, reports, count - 1)->Some_0->Pending_0;
        assert(reports[count - 1].len() == 64);
        lemma_commit_step(write.written(), reports[count - 1]);
        assert(all.skip(count - 1).drop_first() =~= all.skip(count));
        assert(all.skip(count - 1)[0] == all[count - 1]);
        if count < all.len() {
            assert(all.skip(count)[0] == all[count]);
        } else {
            assert(all.skip(count - 1).len() == 1);
        }
    }
}

impl<T> WriteConfiguration<T> {
    #[verifier::type_invariant]
    spec fn under_way(self) -> bool {
        self@.wf()
    }

    /// Goes on with the commit at `from`.
    fn begin(device: T, groups: [GroupConfig; 8], from: usize) -> (progress: Progress<
        Self,
        DeviceConfig<T>,
    >)
        requires
            from <= 120,
            settled_before(groups_view(groups@), from as int),
        ensures
            progress@ == WriteView::begin(device, groups_view(groups@), from as int),
    {
        let mut position = from;
        while position < 120
            invariant
                from <= position <= 120,
                next_update(groups_view(groups@), from as int) == next_update(
                    groups_view(groups@),
                    position as int,
                ),
                settled_before(groups_view(groups@), position as int),
            decreases 120 - position,
        {
            match groups[position / 15].get_update(position % 15) {
                Some((address, value)) => {
                    let command = SetParameter::new(device, address, value);
                    return Progress::Pending(WriteConfiguration { groups, position, command });
                },
                None => {},
            }
            position += 1;
        }
        Progress::Ready(DeviceConfig::from_parts(device, groups))
    }

    /// The device that is written to.
    pub fn device(&self) -> (device: &T)
        ensures
            *device == self@.command.device,
    {
        self.command.device()
    }

    /// The position of the change that is being written.
    pub fn position(&self) -> (position: usize)
        ensures
            position == self@.position,
            position < 120,
    {
        proof {
            use_type_invariant(self);
        }
        self.position
    }

    /// The request to write next, if there is one: the request for the
    /// change at the position of the commit, as long as it has not been
    /// written.
    pub fn request(&self) -> (args: Option<&MidiFaderCommandArgs>)
        ensures
            self@.wf(),
            self@.command.written ==> args is None,
            !self@.command.written ==> args is Some && args->Some_0@ == self@.command.data
                && args->Some_0@ == write_request(write_at(self@.groups, self@.position)),
    {
        proof {
            use_type_invariant(self);
        }
        self.command.request()
    }

    /// The request was written: from now on the answer is awaited.
    pub fn written(self) -> (write: Self)
        ensures
            write@ == (WriteView {
                command: CommandView { written: true, ..self@.command },
                ..self@
            }),
    {
        proof {
            use_type_invariant(&self);
        }
        WriteConfiguration {
            groups: self.groups,
            position: self.position,
            command: self.command.written(),
        }
    }

    /// Takes what the transport read; see `WriteView::step`.
    pub fn response(self, report: &[u8]) -> (progress: Result<
        Progress<Self, DeviceConfig<T>>,
        Error,
    >)
        ensures
            self@.wf(),
            outcome_view(progress) == self@.step(report@),
    {
        proof {
            use_type_invariant(&self);
        }
        let mut groups = self.groups;
        let position = self.position;
        match self.command.response(report) {
            Err(e) => Err(e),
            Ok(Progress::Pending(command)) => Ok(
                Progress::Pending(WriteConfiguration { groups, position, command }),
            ),
            Ok(Progress::Ready(device)) => {
                let ghost before = groups_view(groups@);
                groups[position / 15].commit(position % 15);
                assert(groups_view(groups@) =~= committed_at(before, position as int));
                assert forall|p: int| 0 <= p <= position implies update_at(
                    groups_view(groups@),
                    p,
                ) is None by {
                    lemma_committed(before, position as int, p);
                }
                Ok(Self::begin(device, groups, position + 1))
            },
        }
    }
}

impl<T: AsyncHidDevice<MidiFader>> WriteConfiguration<T> {
    /// Takes the commit as far as the device allows right now: one write
    /// after the other, each made once the one before it is answered, until
    /// the device has nothing to read yet or nothing waits to be written.
    /// What the poll comes to follows from what the device did, as
    /// `WriteView::may_poll` says.
    ///
    /// Whatever the device does, the commit comes back waiting for an answer,
    /// with the same device and with the writes that remained before, less
    /// some at their head; or done, with the configuration, in which nothing
    /// waits any more; or it has failed, with the error of the transport or
    /// of an answer.
    pub fn poll(self) -> (progress: Result<Progress<Self, DeviceConfig<T>>, Error>)
        ensures
            self@.wf(),
            self@.may_poll(outcome_view(progress)),
            progress matches Ok(Progress::Pending(write)) ==> write@.wf() && write@.command.written
                && write@.command.device == self@.command.device && (exists|n: int|
                0 <= n < self@.remaining().len() && write@.remaining() == self@.remaining().skip(n)),
            progress matches Ok(Progress::Ready(config)) ==> config@.device
                == self@.command.device && config@.groups.len() == 8 && settled(config@.groups),
    {
        proof {
            use_type_invariant(&self);
            lemma_update_positions(self@.groups, self@.position);
        }
        let ghost start = self@;
        let ghost mut done: int = 0;
        let mut groups = self.groups;
        let mut position = self.position;
        let mut command = self.command;
        assert(start.remaining().skip(0) =~= start.remaining());
        loop
            invariant
                start == self@,
                start.wf(),
                (WriteView {
                    groups: groups_view(groups@),
                    position: position as int,
                    command: command@,
                }).wf(),
                command@.device == start.command.device,
                0 <= done < start.remaining().len(),
                writes(groups_view(groups@), position as int) == start.remaining().skip(done),
                forall|result: Result<Progress<WriteView<T>, DeviceConfigView<T>>, Error>|
                    (#[trigger] (WriteView {
                        groups: groups_view(groups@),
                        position: position as int,
                        command: command@,
                    }).may_poll(result)) ==> start.may_poll(result),
            decreases 120 - position,
        {
            let ghost here = WriteView {
                groups: groups_view(groups@),
                position: position as int,
                command: CommandView { written: true, ..command@ },
            };
            let ghost now = WriteView {
                groups: groups_view(groups@),
                position: position as int,
                command: command@,
            };
            let inner = command.poll();
            let ghost came = set_parameter_poll_view(inner);
            match inner {
                Err(e) => {
                    proof {
                        let result = Err::<Progress<WriteView<T>, DeviceConfigView<T>>, Error>(e);
                        assert(set_parameter_may_poll(now.command, came) && !now.goes_on(came)
                            && result == now.polled(came));
                        assert(now.may_poll(result));
                    }
                    return Err(e);
                },
                Ok(Progress::Pending(waiting)) => {
                    let write = WriteConfiguration { groups, position, command: waiting };
                    proof {
                        let result = Ok::<Progress<WriteView<T>, DeviceConfigView<T>>, Error>(
                            Progress::Pending(write@),
                        );
                        assert(set_parameter_may_poll(now.command, came) && !now.goes_on(came)
                            && result == now.polled(came));
                        assert(now.may_poll(result));
                    }
                    return Ok(Progress::Pending(write));
                },
                Ok(Progress::Ready(device)) => {
                    let ghost before = groups_view(groups@);
                    groups[position / 15].commit(position % 15);
                    assert(groups_view(groups@) =~= committed_at(before, position as int));
                    proof {
                        let report = choose|report: Seq<u8>|
                            report.len() == 64 && answer_status(here.command.answer(report)) == Ok::<
                                (),
                                Error,
                            >(());
                        lemma_commit_step(here, report);
                        assert forall|p: int| 0 <= p <= position implies update_at(
                            groups_view(groups@),
                            p,
                        ) is None by {
                            lemma_committed(before, position as int, p);
                        }
                        assert(start.remaining().skip(done).drop_first() =~= start.remaining().skip(
                            done + 1,
                        ));
                        lemma_next_update(groups_view(groups@), position + 1);
                    }
                    match Self::begin(device, groups, position + 1) {
                        Progress::Ready(config) => {
                            proof {
                                let result = Ok::<
                                    Progress<WriteView<T>, DeviceConfigView<T>>,
                                    Error,
                                >(Progress::Ready(config@));
                                assert(set_parameter_may_poll(now.command, came) && !now.goes_on(
                                    came,
                                ) && result == now.polled(came));
                                assert(now.may_poll(result));
                            }
                            return Ok(Progress::Ready(config));
                        },
                        Progress::Pending(next) => {
                            proof {
                                done = done + 1;
                                use_type_invariant(&next);
                                assert(now.polled(came) == Ok::<
                                    Progress<WriteView<T>, DeviceConfigView<T>>,
                                    Error,
                                >(Progress::Pending(next@)));
                                assert(now.goes_on(came));
                                assert forall|
                                    result: Result<
                                        Progress<WriteView<T>, DeviceConfigView<T>>,
                                        Error,
                                    >,
                                | #[trigger] next@.may_poll(result) implies start.may_poll(result) by {
                                    assert(set_parameter_may_poll(now.command, came));
                                    assert(now.may_poll(result));
                                }
                            }
                            groups = next.groups;
                            position = next.position;
                            command = next.command;
                        },
                    }
                },
            }
        }
    }
}

impl<T> DeviceConfig<T> {
    /// Starts to commit the configuration: see `WriteConfiguration`. Where
    /// nothing waits to be written, the commit is done at once and nothing is
    /// sent to the device.
    pub fn commit(self) -> (progress: Progress<WriteConfiguration<T>, DeviceConfig<T>>)
        ensures
            progress@ == WriteView::begin(self@.device, self@.groups, 0),
    {
        let (device, groups) = self.into_parts();
        WriteConfiguration::begin(device, groups, 0)
    }
}

} // verus!
