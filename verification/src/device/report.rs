//! The report frame shared by every command and every answer.
//!
//! A frame is 65 bytes long. Byte 0 is the report index, which this device
//! does not use and which is always 0. The 64 bytes behind it are what
//! travels. They hold 14 little-endian words, word `i` at byte `1 + 4 * i`:
//! the command word, which is word 0, and 13 parameter words behind it. The
//! last 8 bytes belong to no word.

use crate::device::endian::le_bytes_u32;
use crate::device::endian::le_u32;
use crate::device::endian::lemma_le_u32_round_trip;
use crate::device::endian::read_u32;
use crate::device::endian::write_u32;
use crate::device::error::Error;
use crate::device::text::from_utf8;
use vstd::prelude::*;
use vstd::slice::slice_subrange;
use vstd::utf8::decode_utf8;
use vstd::utf8::valid_utf8;

verus! {

/// Bytes in a frame, the report index included.
pub const FRAME_LEN: usize = 65;

/// Bytes in a report as the device sends it: a frame without the report index.
pub const REPORT_LEN: usize = 64;

/// Words in a frame: the command word and the parameter words.
pub const WORD_COUNT: usize = 14;

/// Parameter words behind the command word.
pub const PARAMETER_COUNT: usize = 13;

/// The byte at which the firmware version of a status answer starts.
pub const VERSION_START: usize = 9;

/// A frame of zeros.
pub open spec fn empty_frame() -> Seq<u8> {
    Seq::new(65, |i: int| 0u8)
}

/// Word `index` of a frame.
pub open spec fn frame_word(frame: Seq<u8>, index: int) -> u32 {
    le_u32(frame.subrange(1 + 4 * index, 5 + 4 * index)) as u32
}

/// The frame with word `index` replaced by `value`.
pub open spec fn frame_with_word(frame: Seq<u8>, index: int, value: u32) -> Seq<u8> {
    frame.subrange(0, 1 + 4 * index) + le_bytes_u32(value) + frame.subrange(
        5 + 4 * index,
        frame.len() as int,
    )
}

/// The frame after a report of 64 bytes was read into it: the report index
/// stays, everything behind it is the report.
pub open spec fn frame_with_report(frame: Seq<u8>, report: Seq<u8>) -> Seq<u8> {
    frame.subrange(0, 1) + report
}

/// Where the text that starts at `from` ends: at the first zero byte, or at
/// the end of the frame if there is none.
pub open spec fn text_end(frame: Seq<u8>, from: int) -> int
    decreases 65 - from,
{
    if from < 0 || from >= 65 || frame[from] == 0 {
        from
    } else {
        text_end(frame, from + 1)
    }
}

/// The bytes of the firmware version in a status answer: from byte 9 up to
/// the first zero byte or the end of the frame.
pub open spec fn version_bytes(frame: Seq<u8>) -> Seq<u8> {
    frame.subrange(9, text_end(frame, 9))
}

/// Every word of a frame of zeros is zero.
pub proof fn lemma_empty_frame(index: int)
    requires
        0 <= index < 14,
    ensures
        empty_frame().len() == 65,
        empty_frame()[0] == 0,
        frame_word(empty_frame(), index) == 0,
{
}

/// A word that was set is read back; setting it leaves the other words, the
/// report index and the length alone.
pub proof fn lemma_frame_word_set(frame: Seq<u8>, i: int, j: int, value: u32)
    requires
        frame.len() == 65,
        0 <= i < 14,
        0 <= j < 14,
    ensures
        frame_with_word(frame, i, value).len() == 65,
        frame_with_word(frame, i, value)[0] == frame[0],
        frame_word(frame_with_word(frame, i, value), j) == (if i == j {
            value
        } else {
            frame_word(frame, j)
        }),
{
    let after = frame_with_word(frame, i, value);
    lemma_le_u32_round_trip(value);
    if i == j {
        assert(after.subrange(1 + 4 * j, 5 + 4 * j) =~= le_bytes_u32(value));
    } else {
        assert(after.subrange(1 + 4 * j, 5 + 4 * j) =~= frame.subrange(1 + 4 * j, 5 + 4 * j));
    }
}

/// One frame: the buffer a command is written from and its answer is read
/// into.
pub struct MidiFaderCommandArgs {
    data: [u8; 65],
}

impl View for MidiFaderCommandArgs {
    type V = Seq<u8>;

    /// The 65 bytes of the frame.
    closed spec fn view(&self) -> Seq<u8> {
        self.data@
    }
}

impl MidiFaderCommandArgs {
    /// The report index never changes.
    #[verifier::type_invariant]
    spec fn report_index_is_zero(self) -> bool {
        self.data@[0] == 0
    }

    /// A frame of zeros.
    pub fn new() -> (args: Self)
        ensures
            args@ == empty_frame(),
            args@.len() == 65,
    {
        let args = MidiFaderCommandArgs { data: [0u8; 65] };
        assert(args.data@ =~= empty_frame());
        args
    }

    /// Word `index` of the frame.
    pub(crate) fn word(&self, index: usize) -> (word: u32)
        requires
            index < 14,
        ensures
            word == frame_word(self@, index as int),
    {
        let at = 4 * index + 1;
        let bytes = slice_subrange(self.data.as_slice(), at, at + 4);
        read_u32(bytes)
    }

    /// Word `index`, if the frame has one.
    fn get_word(&self, index: usize) -> (word: Option<u32>)
        ensures
            word == (if index < 14 {
                Some(frame_word(self@, index as int))
            } else {
                None
            }),
    {
        if index < WORD_COUNT {
            Some(self.word(index))
        } else {
            None
        }
    }

    /// Replaces word `index`. An index behind the last word changes nothing.
    fn set_word(self, index: usize, value: u32) -> (args: Result<Self, Error>)
        ensures
            args is Ok,
            args->Ok_0@ == (if index < 14 {
                frame_with_word(self@, index as int, value)
            } else {
                self@
            }),
    {
        let mut args = self;
        if index < WORD_COUNT {
            proof {
                use_type_invariant(&args);
            }
            let at = 4 * index + 1;
            let mut word = [0u8;4];
            write_u32(&mut word, value);
            args.data[at] = word[0];
            args.data[at + 1] = word[1];
            args.data[at + 2] = word[2];
            args.data[at + 3] = word[3];
            assert(args.data@ =~= frame_with_word(self.data@, index as int, value));
        }
        Ok(args)
    }

    /// The command word: the opcode of a request, the status of an answer.
    pub fn command(&self) -> (word: u32)
        ensures
            word == frame_word(self@, 0),
    {
        self.word(0)
    }

    /// Replaces the command word.
    pub fn set_command(self, command: u32) -> (args: Result<Self, Error>)
        ensures
            args is Ok,
            args->Ok_0@ == frame_with_word(self@, 0, command),
    {
        self.set_word(0, command)
    }

    /// Parameter word `index`, if the frame has one. Parameter `index` is
    /// word `index + 1`.
    pub fn parameter(&self, index: usize) -> (word: Option<u32>)
        ensures
            word == (if index < 13 {
                Some(frame_word(self@, index + 1))
            } else {
                None
            }),
    {
        if index < PARAMETER_COUNT {
            self.get_word(index + 1)
        } else {
            None
        }
    }

    /// Replaces parameter word `index`. An index behind the last parameter
    /// changes nothing.
    pub fn set_parameter(self, index: usize, value: u32) -> (args: Result<Self, Error>)
        ensures
            args is Ok,
            args->Ok_0@ == (if index < 13 {
                frame_with_word(self@, index + 1, value)
            } else {
                self@
            }),
    {
        if index < PARAMETER_COUNT {
            self.set_word(index + 1, value)
        } else {
            Ok(self)
        }
    }

    /// All 13 parameter words, in order.
    pub fn parameters(&self) -> (words: Vec<u32>)
        ensures
            words@.len() == 13,
            forall|i: int| 0 <= i < 13 ==> words@[i] == frame_word(self@, i + 1),
    {
        let mut words: Vec<u32> = Vec::new();
        let mut index: usize = 0;
        while index < PARAMETER_COUNT
            invariant
                index <= 13,
                words@.len() == index,
                forall|i: int| 0 <= i < index ==> words@[i] == frame_word(self@, i + 1),
            decreases 13 - index,
        {
            match self.parameter(index) {
                Some(word) => words.push(word),
                None => {},
            }
            index += 1;
        }
        words
    }

    /// The firmware version of a status answer: the text from byte 9 up to
    /// the first zero byte, or up to the end of the frame.
    pub fn version(&self) -> (text: Result<&str, Error>)
        ensures
            valid_utf8(version_bytes(self@)) ==> text is Ok && text->Ok_0@ == decode_utf8(
                version_bytes(self@),
            ),
            !valid_utf8(version_bytes(self@)) ==> text == Err::<&str, Error>(Error::Utf8),
    {
        let mut end: usize = VERSION_START;
        while end < FRAME_LEN && self.data[end] != 0
            invariant
                9 <= end <= 65,
                text_end(self.data@, 9) == text_end(self.data@, end as int),
            decreases 65 - end,
        {
            end += 1;
        }
        let bytes = slice_subrange(self.data.as_slice(), VERSION_START, end);
        match from_utf8(bytes) {
            Ok(text) => Ok(text),
            Err(_) => Err(Error::Utf8),
        }
    }

    /// The bytes to write to the device: the whole frame, report index first.
    pub fn as_ref(&self) -> (bytes: &[u8])
        ensures
            bytes@ == self@,
            bytes@.len() == 65,
            bytes@[0] == 0,
    {
        proof {
            use_type_invariant(self);
        }
        self.data.as_slice()
    }

    /// Takes in a report that was read from the device. A report has 64
    /// bytes and replaces everything behind the report index; anything
    /// shorter or longer is no report and leaves the frame as it was.
    pub fn fill(&mut self, report: &[u8]) -> (taken: bool)
        ensures
            taken == (report@.len() == 64),
            final(self)@ == (if taken {
                frame_with_report(old(self)@, report@)
            } else {
                old(self)@
            }),
    {
        if report.len() != REPORT_LEN {
            return false;
        }
        proof {
            use_type_invariant(&*self);
        }
        let mut i: usize = 0;
        while i < REPORT_LEN
            invariant
                i <= 64,
                report@.len() == 64,
                self.data@[0] == 0,
                self.data@[0] == old(self).data@[0],
                forall|k: int| 0 <= k < i ==> self.data@[k + 1] == report@[k],
            decreases 64 - i,
        {
            self.data[i + 1] = report[i];
            i += 1;
        }
        assert(self.data@ =~= frame_with_report(old(self).data@, report@));
        true
    }
}

} // verus!
