//! Numbers with a range: MIDI channels, data values and pitches.
//!
//! A number within the range is tagged valid, any other invalid. The tag is
//! advice; the number is kept either way.

use crate::config::value::into_parameter_value;
use crate::config::value::wire_value;
use crate::config::value::IntoParameterValue;
use crate::device::parameter::i32_as_word;
use crate::device::parameter::signed;
use crate::device::parameter::unsigned;
use crate::device::parameter::word_as_i32;
use crate::device::parameter::ParameterValue;
use vstd::prelude::*;
use vstd::std_specs::convert::FromSpecImpl;

verus! {

/// A MIDI channel as the device holds it: 0 to 15.
#[derive(Clone, Copy, Debug, PartialEq, Eq, Structural)]
pub enum MidiChannel {
    Valid { n: u32 },
    Invalid { n: u32 },
}

impl MidiChannel {
    /// The least number that is valid.
    pub const MIN: u32 = 0;

    /// The greatest number that is valid.
    pub const MAX: u32 = 15;

    /// The number inside, whatever the tag.
    pub open spec fn number(self) -> u32 {
        match self {
            MidiChannel::Valid { n } => n,
            MidiChannel::Invalid { n } => n,
        }
    }

    /// The value for a number: valid from 0 to 15, invalid elsewhere.
    pub open spec fn of(raw: u32) -> Self {
        if 0 <= raw <= 15 {
            MidiChannel::Valid { n: raw }
        } else {
            MidiChannel::Invalid { n: raw }
        }
    }

    /// The value for a number: valid from 0 to 15, invalid elsewhere.
    pub fn new(raw: u32) -> (value: Self)
        ensures
            value == Self::of(raw),
            value.number() == raw,
    {
        if raw <= Self::MAX {
            MidiChannel::Valid { n: raw }
        } else {
            MidiChannel::Invalid { n: raw }
        }
    }

    /// The channel with the given MIDI channel number. Channel numbers start
    /// at 1, one above the number that the device holds; 0 is no channel
    /// number, and nothing is said of it.
    pub fn try_from_channel(channel: u32) -> (value: Option<MidiChannel>)
        requires
            channel >= 1,
        ensures
            value == (if channel <= 16 {
                Some(MidiChannel::Valid { n: (channel - 1) as u32 })
            } else {
                None
            }),
    {
        match Self::new(channel - 1) {
            MidiChannel::Valid { n } => Some(MidiChannel::Valid { n }),
            MidiChannel::Invalid { .. } => None,
        }
    }

    /// The MIDI channel number of a valid channel: one above the number that
    /// the device holds.
    pub fn channel(&self) -> (channel: Option<u32>)
        requires
            self matches MidiChannel::Valid { n } ==> n < u32::MAX,
        ensures
            channel == (match *self {
                MidiChannel::Valid { n } => Some((n + 1) as u32),
                MidiChannel::Invalid { .. } => None,
            }),
    {
        match *self {
            MidiChannel::Valid { n } => Some(n + 1),
            MidiChannel::Invalid { .. } => None,
        }
    }
}

impl IntoParameterValue for MidiChannel {
    open spec fn raw(self) -> i32 {
        word_as_i32(self.number())
    }

    open spec fn of_raw(raw: i32) -> Self {
        Self::of(i32_as_word(raw))
    }

    open spec fn wire_size() -> usize {
        1
    }

    fn size() -> (size: usize) {
        1
    }

    fn to_i32(self) -> (raw: i32) {
        match self {
            MidiChannel::Valid { n } => signed(n),
            MidiChannel::Invalid { n } => signed(n),
        }
    }

    fn from_i32(raw: i32) -> (value: Self) {
        Self::new(unsigned(raw))
    }

    fn same(self, other: Self) -> (same: bool) {
        self == other
    }

    proof fn lemma_round_trip(raw: i32) {
    }

    proof fn lemma_wire_size() {
    }
}

impl MidiChannel {
    /// An integer from 0 to 15 stands for a valid value, any other for
    /// an invalid one; either way the value stands for that integer.
    pub proof fn lemma_range(raw: i32)
        ensures
            0 <= raw <= 15 ==> Self::of_raw(raw) == (MidiChannel::Valid { n: raw as u32 }),
            !(0 <= raw <= 15) ==> Self::of_raw(raw) is Invalid,
            Self::of_raw(raw).raw() == raw,
            wire_value(Self::of_raw(raw)) == (ParameterValue { value: raw, size: 1 }),
    {
    }
}

impl FromSpecImpl<i32> for MidiChannel {
    open spec fn obeys_from_spec() -> bool {
        true
    }

    open spec fn from_spec(i: i32) -> Self {
        <MidiChannel as IntoParameterValue>::of_raw(i)
    }
}

impl From<i32> for MidiChannel {
    fn from(i: i32) -> (value: MidiChannel) {
        <MidiChannel as IntoParameterValue>::from_i32(i)
    }
}

impl FromSpecImpl<MidiChannel> for i32 {
    open spec fn obeys_from_spec() -> bool {
        true
    }

    open spec fn from_spec(v: MidiChannel) -> i32 {
        v.raw()
    }
}

impl From<MidiChannel> for i32 {
    fn from(v: MidiChannel) -> (raw: i32) {
        v.to_i32()
    }
}

impl FromSpecImpl<MidiChannel> for ParameterValue {
    open spec fn obeys_from_spec() -> bool {
        true
    }

    open spec fn from_spec(v: MidiChannel) -> ParameterValue {
        wire_value(v)
    }
}

impl From<MidiChannel> for ParameterValue {
    fn from(v: MidiChannel) -> (parameter: ParameterValue) {
        into_parameter_value(v)
    }
}

/// A MIDI data value: 0 to 127.
#[derive(Clone, Copy, Debug, PartialEq, Eq, Structural)]
pub enum MidiValue {
    Valid { n: u32 },
    Invalid { n: u32 },
}

impl MidiValue {
    /// The least number that is valid.
    pub const MIN: u32 = 0;

    /// The greatest number that is valid.
    pub const MAX: u32 = 127;

    /// The number inside, whatever the tag.
    pub open spec fn number(self) -> u32 {
        match self {
            MidiValue::Valid { n } => n,
            MidiValue::Invalid { n } => n,
        }
    }

    /// The value for a number: valid from 0 to 127, invalid elsewhere.
    pub open spec fn of(raw: u32) -> Self {
        if 0 <= raw <= 127 {
            MidiValue::Valid { n: raw }
        } else {
            MidiValue::Invalid { n: raw }
        }
    }

    /// The value for a number: valid from 0 to 127, invalid elsewhere.
    pub fn new(raw: u32) -> (value: Self)
        ensures
            value == Self::of(raw),
            value.number() == raw,
    {
        if raw <= Self::MAX {
            MidiValue::Valid { n: raw }
        } else {
            MidiValue::Invalid { n: raw }
        }
    }

    /// The value for a number, if the number is valid.
    pub fn try_from_value(value: u32) -> (valid: Option<MidiValue>)
        ensures
            valid == (if Self::of(value) is Valid {
                Some(Self::of(value))
            } else {
                None
            }),
    {
        match Self::new(value) {
            MidiValue::Valid { n } => Some(MidiValue::Valid { n }),
            MidiValue::Invalid { .. } => None,
        }
    }

    /// The number of a valid value.
    pub fn value(&self) -> (number: Option<u32>)
        ensures
            number == (match *self {
                MidiValue::Valid { n } => Some(n),
                MidiValue::Invalid { .. } => None,
            }),
    {
        match *self {
            MidiValue::Valid { n } => Some(n),
            MidiValue::Invalid { .. } => None,
        }
    }
}

impl IntoParameterValue for MidiValue {
    open spec fn raw(self) -> i32 {
        word_as_i32(self.number())
    }

    open spec fn of_raw(raw: i32) -> Self {
        Self::of(i32_as_word(raw))
    }

    open spec fn wire_size() -> usize {
        1
    }

    fn size() -> (size: usize) {
        1
    }

    fn to_i32(self) -> (raw: i32) {
        match self {
            MidiValue::Valid { n } => signed(n),
            MidiValue::Invalid { n } => signed(n),
        }
    }

    fn from_i32(raw: i32) -> (value: Self) {
        Self::new(unsigned(raw))
    }

    fn same(self, other: Self) -> (same: bool) {
        self == other
    }

    proof fn lemma_round_trip(raw: i32) {
    }

    proof fn lemma_wire_size() {
    }
}

impl MidiValue {
    /// An integer from 0 to 127 stands for a valid value, any other for
    /// an invalid one; either way the value stands for that integer.
    pub proof fn lemma_range(raw: i32)
        ensures
            0 <= raw <= 127 ==> Self::of_raw(raw) == (MidiValue::Valid { n: raw as u32 }),
            !(0 <= raw <= 127) ==> Self::of_raw(raw) is Invalid,
            Self::of_raw(raw).raw() == raw,
            wire_value(Self::of_raw(raw)) == (ParameterValue { value: raw, size: 1 }),
    {
    }
}

impl FromSpecImpl<i32> for MidiValue {
    open spec fn obeys_from_spec() -> bool {
        true
    }

    open spec fn from_spec(i: i32) -> Self {
        <MidiValue as IntoParameterValue>::of_raw(i)
    }
}

impl From<i32> for MidiValue {
    fn from(i: i32) -> (value: MidiValue) {
        <MidiValue as IntoParameterValue>::from_i32(i)
    }
}

impl FromSpecImpl<MidiValue> for i32 {
    open spec fn obeys_from_spec() -> bool {
        true
    }

    open spec fn from_spec(v: MidiValue) -> i32 {
        v.raw()
    }
}

impl From<MidiValue> for i32 {
    fn from(v: MidiValue) -> (raw: i32) {
        v.to_i32()
    }
}

impl FromSpecImpl<MidiValue> for ParameterValue {
    open spec fn obeys_from_spec() -> bool {
        true
    }

    open spec fn from_spec(v: MidiValue) -> ParameterValue {
        wire_value(v)
    }
}

impl From<MidiValue> for ParameterValue {
    fn from(v: MidiValue) -> (parameter: ParameterValue) {
        into_parameter_value(v)
    }
}

/// A MIDI pitch bend: -8192 to 8191.
#[derive(Clone, Copy, Debug, PartialEq, Eq, Structural)]
pub enum MidiPitch {
    Valid { n: i32 },
    Invalid { n: i32 },
}

impl MidiPitch {
    /// The least number that is valid.
    pub const MIN: i32 = -8192;

    /// The greatest number that is valid.
    pub const MAX: i32 = 8191;

    /// The number inside, whatever the tag.
    pub open spec fn number(self) -> i32 {
        match self {
            MidiPitch::Valid { n } => n,
            MidiPitch::Invalid { n } => n,
        }
    }

    /// The value for a number: valid from -8192 to 8191, invalid elsewhere.
    pub open spec fn of(raw: i32) -> Self {
        if -8192 <= raw <= 8191 {
            MidiPitch::Valid { n: raw }
        } else {
            MidiPitch::Invalid { n: raw }
        }
    }

    /// The value for a number: valid from -8192 to 8191, invalid elsewhere.
    pub fn new(raw: i32) -> (value: Self)
        ensures
            value == Self::of(raw),
            value.number() == raw,
    {
        if Self::MIN <= raw && raw <= Self::MAX {
            MidiPitch::Valid { n: raw }
        } else {
            MidiPitch::Invalid { n: raw }
        }
    }

    /// The value for a number, if the number is valid.
    pub fn try_from_value(value: i32) -> (valid: Option<MidiPitch>)
        ensures
            valid == (if Self::of(value) is Valid {
                Some(Self::of(value))
            } else {
                None
            }),
    {
        match Self::new(value) {
            MidiPitch::Valid { n } => Some(MidiPitch::Valid { n }),
            MidiPitch::Invalid { .. } => None,
        }
    }

    /// The number of a valid value.
    pub fn value(&self) -> (number: Option<i32>)
        ensures
            number == (match *self {
                MidiPitch::Valid { n } => Some(n),
                MidiPitch::Invalid { .. } => None,
            }),
    {
        match *self {
            MidiPitch::Valid { n } => Some(n),
            MidiPitch::Invalid { .. } => None,
        }
    }
}

impl IntoParameterValue for MidiPitch {
    open spec fn raw(self) -> i32 {
        self.number()
    }

    open spec fn of_raw(raw: i32) -> Self {
        Self::of(raw)
    }

    open spec fn wire_size() -> usize {
        2
    }

    fn size() -> (size: usize) {
        2
    }

    fn to_i32(self) -> (raw: i32) {
        match self {
            MidiPitch::Valid { n } => n,
            MidiPitch::Invalid { n } => n,
        }
    }

    fn from_i32(raw: i32) -> (value: Self) {
        Self::new(raw)
    }

    fn same(self, other: Self) -> (same: bool) {
        self == other
    }

    proof fn lemma_round_trip(raw: i32) {
    }

    proof fn lemma_wire_size() {
    }
}

impl MidiPitch {
    /// An integer from -8192 to 8191 stands for a valid value, any other for
    /// an invalid one; either way the value stands for that integer.
    pub proof fn lemma_range(raw: i32)
        ensures
            -8192 <= raw <= 8191 ==> Self::of_raw(raw) == (MidiPitch::Valid { n: raw as i32 }),
            !(-8192 <= raw <= 8191) ==> Self::of_raw(raw) is Invalid,
            Self::of_raw(raw).raw() == raw,
            wire_value(Self::of_raw(raw)) == (ParameterValue { value: raw, size: 2 }),
    {
    }
}

impl FromSpecImpl<i32> for MidiPitch {
    open spec fn obeys_from_spec() -> bool {
        true
    }

    open spec fn from_spec(i: i32) -> Self {
        <MidiPitch as IntoParameterValue>::of_raw(i)
    }
}

impl From<i32> for MidiPitch {
    fn from(i: i32) -> (value: MidiPitch) {
        <MidiPitch as IntoParameterValue>::from_i32(i)
    }
}

impl FromSpecImpl<MidiPitch> for i32 {
    open spec fn obeys_from_spec() -> bool {
        true
    }

    open spec fn from_spec(v: MidiPitch) -> i32 {
        v.raw()
    }
}

impl From<MidiPitch> for i32 {
    fn from(v: MidiPitch) -> (raw: i32) {
        v.to_i32()
    }
}

impl FromSpecImpl<MidiPitch> for ParameterValue {
    open spec fn obeys_from_spec() -> bool {
        true
    }

    open spec fn from_spec(v: MidiPitch) -> ParameterValue {
        wire_value(v)
    }
}

impl From<MidiPitch> for ParameterValue {
    fn from(v: MidiPitch) -> (parameter: ParameterValue) {
        into_parameter_value(v)
    }
}

} // verus!
