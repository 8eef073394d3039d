//! Device parameters: their values, and the commands that get and set them.

use crate::device::command::command_poll_view;
use crate::device::command::CommandView;
use crate::device::command::MidiFaderCommand;
use crate::device::command::Progress;
use crate::device::endian::read_i16;
use crate::device::endian::write_u16;
use crate::device::error::Error;
use crate::device::report::empty_frame;
use crate::device::report::frame_with_word;
use crate::device::report::frame_word;
use crate::device::report::lemma_empty_frame;
use crate::device::report::lemma_frame_word_set;
use crate::device::report::MidiFaderCommandArgs;
use crate::device::transport::AsyncHidDevice;
use crate::device::transport::MidiFader;
use vstd::prelude::*;
use vstd::std_specs::convert::FromSpecImpl;

verus! {

/// The opcode of a request for a parameter's value.
pub const GET_PARAMETER: u32 = 0x40;

/// The opcode of a request to change a parameter's value.
pub const SET_PARAMETER: u32 = 0x80;

/// A signed parameter value with the number of bytes that the device holds
/// of it: 1, 2 or 4.
#[derive(Clone, Copy, Debug, PartialEq, Eq, Structural)]
pub struct ParameterValue {
    pub value: i32,
    pub size: usize,
}

impl ParameterValue {
    /// Whether the size is one that the device knows.
    pub open spec fn has_wire_size(self) -> bool {
        self.size == 1 || self.size == 2 || self.size == 4
    }

    /// A value of which the device holds `size` bytes.
    pub fn new(value: i32, size: usize) -> (parameter: Self)
        ensures
            parameter == (ParameterValue { value, size }),
    {
        ParameterValue { value, size }
    }

    /// The value.
    pub fn value(&self) -> (value: i32)
        ensures
            value == self.value,
    {
        self.value
    }

    /// The number of bytes that the device holds of the value.
    pub fn size(&self) -> (size: usize)
        ensures
            size == self.size,
    {
        self.size
    }
}

impl FromSpecImpl<ParameterValue> for i32 {
    open spec fn obeys_from_spec() -> bool {
        true
    }

    open spec fn from_spec(val: ParameterValue) -> i32 {
        val.value
    }
}

impl From<ParameterValue> for i32 {
    fn from(val: ParameterValue) -> (value: i32) {
        val.value
    }
}

/// A word read as a signed number in two's complement.
pub open spec fn word_as_i32(word: u32) -> i32 {
    if word < 0x8000_0000 {
        word as i32
    } else {
        (word - 0x1_0000_0000) as i32
    }
}

/// The word that holds a signed number in two's complement.
pub open spec fn i32_as_word(value: i32) -> u32 {
    if value >= 0 {
        value as u32
    } else {
        (value + 0x1_0000_0000) as u32
    }
}

/// The value that a raw word stands for, given how many of its bytes count:
/// the low byte, the low two bytes or all four, as a signed number in two's
/// complement.
pub open spec fn sign_extended(raw: u32, size: usize) -> i32 {
    if size == 1 {
        let low = raw % 0x100;
        if low < 0x80 {
            low as i32
        } else {
            (low - 0x100) as i32
        }
    } else if size == 2 {
        let low = raw % 0x1_0000;
        if low < 0x8000 {
            low as i32
        } else {
            (low - 0x1_0000) as i32
        }
    } else {
        word_as_i32(raw)
    }
}

/// What a status word at the start of an answer says: zero is success,
/// anything else is the device's error code.
pub open spec fn answer_status(answer: Seq<u8>) -> Result<(), Error> {
    let code = word_as_i32(frame_word(answer, 0));
    if code != 0 {
        Err(Error::DeviceError(code))
    } else {
        Ok(())
    }
}

/// The frame that asks for the value at address `parameter`.
pub open spec fn get_parameter_request(parameter: u16) -> Seq<u8> {
    frame_with_word(
        frame_with_word(frame_with_word(empty_frame(), 0, 0x40), 1, 0),
        2,
        parameter as u32,
    )
}

/// What the answer to a request for a value says. Word 0 is the status, word
/// 2 the raw value, word 3 its size.
pub open spec fn get_parameter_answer(answer: Seq<u8>) -> Result<ParameterValue, Error> {
    let raw = frame_word(answer, 2);
    let size = frame_word(answer, 3) as usize;
    if answer_status(answer) is Err {
        Err(answer_status(answer)->Err_0)
    } else if size == 1 || size == 2 || size == 4 {
        Ok(ParameterValue { value: sign_extended(raw, size), size })
    } else {
        Err(Error::ParameterSizeError(size))
    }
}

/// The frame that asks to set the value at address `parameter`.
pub open spec fn set_parameter_request(parameter: u16, value: ParameterValue) -> Seq<u8> {
    frame_with_word(
        frame_with_word(
            frame_with_word(
                frame_with_word(frame_with_word(empty_frame(), 0, 0x80), 1, 0),
                2,
                parameter as u32,
            ),
            3,
            i32_as_word(value.value),
        ),
        4,
        value.size as u32,
    )
}

/// The layout of a request for a value: the opcode 0x40 in the command word,
/// zero in word 1, the address in word 2, and zero everywhere else.
pub proof fn lemma_get_parameter_request(parameter: u16, index: int)
    requires
        0 <= index < 14,
    ensures
        get_parameter_request(parameter).len() == 65,
        get_parameter_request(parameter)[0] == 0,
        frame_word(get_parameter_request(parameter), index) == (if index == 0 {
            0x40u32
        } else if index == 2 {
            parameter as u32
        } else {
            0u32
        }),
{
    let opcode = frame_with_word(empty_frame(), 0, 0x40);
    let zero = frame_with_word(opcode, 1, 0);
    lemma_empty_frame(index);
    lemma_frame_word_set(empty_frame(), 0, index, 0x40);
    lemma_frame_word_set(opcode, 1, index, 0);
    lemma_frame_word_set(zero, 2, index, parameter as u32);
}

/// The layout of a request to set a value: the opcode 0x80 in the command
/// word, zero in word 1, the address in word 2, the value in word 3, its
/// size in word 4, and zero everywhere else.
pub proof fn lemma_set_parameter_request(parameter: u16, value: ParameterValue, index: int)
    requires
        0 <= index < 14,
        value.has_wire_size(),
    ensures
        set_parameter_request(parameter, value).len() == 65,
        set_parameter_request(parameter, value)[0] == 0,
        frame_word(set_parameter_request(parameter, value), index) == (if index == 0 {
            0x80u32
        } else if index == 2 {
            parameter as u32
        } else if index == 3 {
            i32_as_word(value.value)
        } else if index == 4 {
            value.size as u32
        } else {
            0u32
        }),
{
    let opcode = frame_with_word(empty_frame(), 0, 0x80);
    let zero = frame_with_word(opcode, 1, 0);
    let address = frame_with_word(zero, 2, parameter as u32);
    let raw = frame_with_word(address, 3, i32_as_word(value.value));
    lemma_empty_frame(index);
    lemma_frame_word_set(empty_frame(), 0, index, 0x80);
    lemma_frame_word_set(opcode, 1, index, 0);
    lemma_frame_word_set(zero, 2, index, parameter as u32);
    lemma_frame_word_set(address, 3, index, i32_as_word(value.value));
    lemma_frame_word_set(raw, 4, index, value.size as u32);
}

/// Reads a word as a signed number.
pub(crate) fn signed(word: u32) -> (value: i32)
    ensures
        value == word_as_i32(word),
{
    assert(word < 0x8000_0000u32 ==> (word as i32) as i64 == word as i64) by (bit_vector);
    assert(word >= 0x8000_0000u32 ==> (word as i32) as i64 == (word as i64) - 0x1_0000_0000i64)
        by (bit_vector);
    #[verifier::truncate]
    (word as i32)
}

/// Lays a signed number out as a word.
pub(crate) fn unsigned(value: i32) -> (word: u32)
    ensures
        word == i32_as_word(value),
{
    assert(value >= 0i32 ==> (value as u32) as i64 == value as i64) by (bit_vector);
    assert(value < 0i32 ==> (value as u32) as i64 == (value as i64) + 0x1_0000_0000i64)
        by (bit_vector);
    #[verifier::truncate]
    (value as u32)
}

/// Decodes a raw word of which `size` bytes count.
pub fn sign_extend(raw: u32, size: usize) -> (value: i32)
    requires
        size == 1 || size == 2 || size == 4,
    ensures
        value == sign_extended(raw, size),
{
    if size == 1 {
        let low = #[verifier::truncate] (raw as u8);
        assert(low as u32 == raw % 0x100u32) by (bit_vector)
            requires
                low == raw as u8,
        ;
        assert(low < 0x80u8 ==> (low as i8) as i32 == low as i32) by (bit_vector);
        assert(low >= 0x80u8 ==> (low as i8) as i32 == (low as i32) - 0x100i32) by (bit_vector);
        (#[verifier::truncate] (low as i8)) as i32
    } else if size == 2 {
        let low = #[verifier::truncate] (raw as u16);
        assert(low as u32 == raw % 0x1_0000u32) by (bit_vector)
            requires
                low == raw as u16,
        ;
        let mut buf = [0u8;2];
        write_u16(&mut buf, low);
        read_i16(&buf) as i32
    } else {
        signed(raw)
    }
}

/// Checks the status word of an answer.
pub(crate) fn check_status(answer: &MidiFaderCommandArgs) -> (status: Result<(), Error>)
    ensures
        status == answer_status(answer@),
{
    let code = signed(answer.command());
    if code != 0 {
        Err(Error::DeviceError(code))
    } else {
        Ok(())
    }
}

/// The command that gets the value of one parameter.
pub struct GetParameter<T> {
    command: MidiFaderCommand<T>,
}

impl<T> View for GetParameter<T> {
    type V = CommandView<T>;

    closed spec fn view(&self) -> CommandView<T> {
        self.command@
    }
}

impl<T> GetParameter<T> {
    /// A command that asks `device` for the value at address `parameter`.
    pub fn new(device: T, parameter: u16) -> (get: Self)
        ensures
            get@ == (CommandView {
                device,
                data: get_parameter_request(parameter),
                written: false,
            }),
    {
        let args = MidiFaderCommandArgs::new();
        let args = args.set_command(GET_PARAMETER).unwrap();
        let args = args.set_parameter(0, 0).unwrap();
        let args = args.set_parameter(1, parameter as u32).unwrap();
        GetParameter { command: MidiFaderCommand::new(device, args) }
    }

    /// The device the command runs on.
    pub fn device(&self) -> (dev: &T)
        ensures
            *dev == self@.device,
    {
        self.command.device()
    }

    /// The request, as long as it has to be written.
    pub fn request(&self) -> (args: Option<&MidiFaderCommandArgs>)
        ensures
            self@.written ==> args is None,
            !self@.written ==> args is Some && args->Some_0@ == self@.data,
    {
        self.command.request()
    }

    /// The request was written: from now on the answer is awaited.
    pub fn written(self) -> (get: Self)
        ensures
            get@ == (CommandView { written: true, ..self@ }),
    {
        GetParameter { command: self.command.written() }
    }

    /// Decodes the answer to a request for a value.
    pub fn decode(answer: &MidiFaderCommandArgs) -> (value: Result<ParameterValue, Error>)
        ensures
            value == get_parameter_answer(answer@),
    {
        match check_status(answer) {
            Err(e) => Err(e),
            Ok(()) => {
                let raw = answer.word(2);
                let size = answer.word(3) as usize;
                if size == 1 || size == 2 || size == 4 {
                    Ok(ParameterValue::new(sign_extend(raw, size), size))
                } else {
                    Err(Error::ParameterSizeError(size))
                }
            },
        }
    }

    /// Takes what the transport read. Once the request is written, a full
    /// report completes the command: with the device and the value if the
    /// answer holds one, with the error that it holds otherwise. Before that,
    /// or on anything but a full report, the command stays as it is.
    pub fn response(self, report: &[u8]) -> (progress: Result<
        Progress<Self, (T, ParameterValue)>,
        Error,
    >)
        ensures
            !self@.answered_by(report@) ==> (progress matches Ok(Progress::Pending(get)) && get@
                == self@),
            self@.answered_by(report@) ==> (match get_parameter_answer(self@.answer(report@)) {
                Ok(value) => progress matches Ok(Progress::Ready((dev, got))) && dev
                    == self@.device && got == value,
                Err(e) => progress matches Err(err) && err == e,
            }),
    {
        match self.command.response(report) {
            Progress::Pending(command) => Ok(Progress::Pending(GetParameter { command })),
            Progress::Ready((device, answer, _)) => match Self::decode(&answer) {
                Ok(value) => Ok(Progress::Ready((device, value))),
                Err(e) => Err(e),
            },
        }
    }
}

/// The command that sets the value of one parameter.
pub struct SetParameter<T> {
    command: MidiFaderCommand<T>,
}

impl<T> View for SetParameter<T> {
    type V = CommandView<T>;

    closed spec fn view(&self) -> CommandView<T> {
        self.command@
    }
}

impl<T> SetParameter<T> {
    /// A command that asks `device` to set the value at address `parameter`.
    /// The size of the value is one that the device knows.
    pub fn new(device: T, parameter: u16, value: ParameterValue) -> (set: Self)
        requires
            value.has_wire_size(),
        ensures
            set@ == (CommandView {
                device,
                data: set_parameter_request(parameter, value),
                written: false,
            }),
    {
        let args = MidiFaderCommandArgs::new();
        let args = args.set_command(SET_PARAMETER).unwrap();
        let args = args.set_parameter(0, 0).unwrap();
        let args = args.set_parameter(1, parameter as u32).unwrap();
        let args = args.set_parameter(2, unsigned(value.value())).unwrap();
        let args = args.set_parameter(3, value.size() as u32).unwrap();
        SetParameter { command: MidiFaderCommand::new(device, args) }
    }

    /// The device the command runs on.
    pub fn device(&self) -> (dev: &T)
        ensures
            *dev == self@.device,
    {
        self.command.device()
    }

    /// The request, as long as it has to be written.
    pub fn request(&self) -> (args: Option<&MidiFaderCommandArgs>)
        ensures
            self@.written ==> args is None,
            !self@.written ==> args is Some && args->Some_0@ == self@.data,
    {
        self.command.request()
    }

    /// The request was written: from now on the answer is awaited.
    pub fn written(self) -> (set: Self)
        ensures
            set@ == (CommandView { written: true, ..self@ }),
    {
        SetParameter { command: self.command.written() }
    }

    /// Decodes the answer to a request to set a value: it holds a status and
    /// nothing else.
    pub fn decode(answer: &MidiFaderCommandArgs) -> (status: Result<(), Error>)
        ensures
            status == answer_status(answer@),
    {
        check_status(answer)
    }

    /// Takes what the transport read. Once the request is written, a full
    /// report completes the command: with the device if the answer reports
    /// success, with the device's error otherwise. Before that, or on
    /// anything but a full report, the command stays as it is.
    pub fn response(self, report: &[u8]) -> (progress: Result<Progress<Self, T>, Error>)
        ensures
            !self@.answered_by(report@) ==> (progress matches Ok(Progress::Pending(set)) && set@
                == self@),
            self@.answered_by(report@) ==> (match answer_status(self@.answer(report@)) {
                Ok(_) => progress matches Ok(Progress::Ready(dev)) && dev == self@.device,
                Err(e) => progress matches Err(err) && err == e,
            }),
    {
        match self.command.response(report) {
            Progress::Pending(command) => Ok(Progress::Pending(SetParameter { command })),
            Progress::Ready((device, answer, _)) => match Self::decode(&answer) {
                Ok(()) => Ok(Progress::Ready(device)),
                Err(e) => Err(e),
            },
        }
    }
}

/// What a request for a value makes of a poll of its command that came to
/// `inner`. A failure is passed on. A command that waits leaves the request
/// waiting. An answer ends the request: with the device and the value if it
/// holds one, with the error that it holds otherwise.
pub open spec fn get_parameter_polled<T>(
    inner: Result<Progress<CommandView<T>, (T, Seq<u8>, usize)>, Error>,
) -> Result<Progress<CommandView<T>, (T, ParameterValue)>, Error> {
    match inner {
        Err(e) => Err(e),
        Ok(Progress::Pending(command)) => Ok(Progress::Pending(command)),
        Ok(Progress::Ready((device, answer, _))) => match get_parameter_answer(answer) {
            Ok(value) => Ok(Progress::Ready((device, value))),
            Err(e) => Err(e),
        },
    }
}

/// What a poll of a request for a value came to, in terms of what the
/// command holds.
pub open spec fn get_parameter_poll_view<T>(
    progress: Result<Progress<GetParameter<T>, (T, ParameterValue)>, Error>,
) -> Result<Progress<CommandView<T>, (T, ParameterValue)>, Error> {
    match progress {
        Err(e) => Err(e),
        Ok(Progress::Pending(get)) => Ok(Progress::Pending(get@)),
        Ok(Progress::Ready(done)) => Ok(Progress::Ready(done)),
    }
}

/// What a request to set a value makes of a poll of its command that came to
/// `inner`. A failure is passed on. A command that waits leaves the request
/// waiting. An answer ends the request: with the device if it reports
/// success, with the error that it holds otherwise.
pub open spec fn set_parameter_polled<T>(
    inner: Result<Progress<CommandView<T>, (T, Seq<u8>, usize)>, Error>,
) -> Result<Progress<CommandView<T>, T>, Error> {
    match inner {
        Err(e) => Err(e),
        Ok(Progress::Pending(command)) => Ok(Progress::Pending(command)),
        Ok(Progress::Ready((device, answer, _))) => match answer_status(answer) {
            Ok(_) => Ok(Progress::Ready(device)),
            Err(e) => Err(e),
        },
    }
}

/// What a poll of a request to set a value came to, in terms of what the
/// command holds.
pub open spec fn set_parameter_poll_view<T>(
    progress: Result<Progress<SetParameter<T>, T>, Error>,
) -> Result<Progress<CommandView<T>, T>, Error> {
    match progress {
        Err(e) => Err(e),
        Ok(Progress::Pending(set)) => Ok(Progress::Pending(set@)),
        Ok(Progress::Ready(device)) => Ok(Progress::Ready(device)),
    }
}

/// Whether a poll of a request for a value, whose command is `command`, can
/// come to `result`: its command is polled, and `result` is what the request
/// makes of what that came to.
pub open spec fn get_parameter_may_poll<T: AsyncHidDevice<MidiFader>>(
    command: CommandView<T>,
    result: Result<Progress<CommandView<T>, (T, ParameterValue)>, Error>,
) -> bool {
    exists|inner: Result<Progress<CommandView<T>, (T, Seq<u8>, usize)>, Error>| #[trigger]
        command.may_poll(inner) && result == get_parameter_polled(inner)
}

/// Whether a poll of a request to set a value, whose command is `command`,
/// can come to `result`: its command is polled, and `result` is what the
/// request makes of what that came to.
pub open spec fn set_parameter_may_poll<T: AsyncHidDevice<MidiFader>>(
    command: CommandView<T>,
    result: Result<Progress<CommandView<T>, T>, Error>,
) -> bool {
    exists|inner: Result<Progress<CommandView<T>, (T, Seq<u8>, usize)>, Error>| #[trigger]
        command.may_poll(inner) && result == set_parameter_polled(inner)
}

impl<T> GetParameter<T> {
    /// What the request makes of a poll of its command that came to `inner`;
    /// see `get_parameter_polled`.
    pub fn polled(
        inner: Result<Progress<MidiFaderCommand<T>, (T, MidiFaderCommandArgs, usize)>, Error>,
    ) -> (progress: Result<Progress<Self, (T, ParameterValue)>, Error>)
        ensures
            get_parameter_poll_view(progress) == get_parameter_polled(command_poll_view(inner)),
    {
        match inner {
            Err(e) => Err(e),
            Ok(Progress::Pending(command)) => Ok(Progress::Pending(GetParameter { command })),
            Ok(Progress::Ready((device, answer, _))) => match Self::decode(&answer) {
                Ok(value) => Ok(Progress::Ready((device, value))),
                Err(e) => Err(e),
            },
        }
    }
}

impl<T> SetParameter<T> {
    /// What the request makes of a poll of its command that came to `inner`;
    /// see `set_parameter_polled`.
    pub fn polled(
        inner: Result<Progress<MidiFaderCommand<T>, (T, MidiFaderCommandArgs, usize)>, Error>,
    ) -> (progress: Result<Progress<Self, T>, Error>)
        ensures
            set_parameter_poll_view(progress) == set_parameter_polled(command_poll_view(inner)),
    {
        match inner {
            Err(e) => Err(e),
            Ok(Progress::Pending(command)) => Ok(Progress::Pending(SetParameter { command })),
            Ok(Progress::Ready((device, answer, _))) => match Self::decode(&answer) {
                Ok(()) => Ok(Progress::Ready(device)),
                Err(e) => Err(e),
            },
        }
    }
}

impl<T: AsyncHidDevice<MidiFader>> GetParameter<T> {
    /// Takes the command as far as the device allows right now: writes the
    /// request if that is still to do, then polls the device once for the
    /// answer. The result is what `get_parameter_polled` makes of what the
    /// poll of the command came to.
    ///
    /// Whatever the device does, the command comes back waiting for its
    /// answer, or done with the value that a full report holds, or it has
    /// failed: with the error of the transport, or with the error that the
    /// answer holds.
    pub fn poll(self) -> (progress: Result<Progress<Self, (T, ParameterValue)>, Error>)
        ensures
            get_parameter_may_poll(self@, get_parameter_poll_view(progress)),
            progress matches Ok(Progress::Pending(get)) ==> get@ == (CommandView {
                written: true,
                ..self@
            }),
            progress matches Ok(Progress::Ready((dev, value))) ==> dev == self@.device
                && exists|report: Seq<u8>|
                report.len() == 64 && get_parameter_answer(self@.answer(report)) == Ok::<
                    ParameterValue,
                    Error,
                >(value),
    {
        let inner = self.command.poll();
        assert(self@.may_poll(command_poll_view(inner)));
        Self::polled(inner)
    }
}

impl<T: AsyncHidDevice<MidiFader>> SetParameter<T> {
    /// Takes the command as far as the device allows right now: writes the
    /// request if that is still to do, then polls the device once for the
    /// answer. The result is what `set_parameter_polled` makes of what the
    /// poll of the command came to.
    ///
    /// Whatever the device does, the command comes back waiting for its
    /// answer, or done after a full report that reports success, or it has
    /// failed: with the error of the transport, or with the error that the
    /// answer holds.
    pub fn poll(self) -> (progress: Result<Progress<Self, T>, Error>)
        ensures
            set_parameter_may_poll(self@, set_parameter_poll_view(progress)),
            progress matches Ok(Progress::Pending(set)) ==> set@ == (CommandView {
                written: true,
                ..self@
            }),
            progress matches Ok(Progress::Ready(dev)) ==> dev == self@.device && exists|
                report: Seq<u8>,
            |
                report.len() == 64 && answer_status(self@.answer(report)) == Ok::<(), Error>(()),
    {
        let inner = self.command.poll();
        assert(self@.may_poll(command_poll_view(inner)));
        Self::polled(inner)
    }
}

} // verus!
