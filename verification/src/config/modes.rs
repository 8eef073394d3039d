//! Modes and styles: integers of which some have a name.
//!
//! An integer without a name is kept as it is, so that a device that knows
//! more modes than this library does is read and written without loss.

use crate::config::value::into_parameter_value;
use crate::config::value::wire_value;
use crate::config::value::IntoParameterValue;
use crate::device::parameter::i32_as_word;
use crate::device::parameter::signed;
use crate::device::parameter::unsigned;
use crate::device::parameter::word_as_i32;
use crate::device::parameter::ParameterValue;
use vstd::prelude::*;
use vstd::std_specs::convert::FromSpecImpl;

verus! {

/// What a button sends: a control change (0) or a note (1).
#[derive(Clone, Copy, Debug, PartialEq, Eq, Structural)]
pub enum ButtonMode {
    Control,
    Note,
    Invalid { n: u32 },
}

impl IntoParameterValue for ButtonMode {
    open spec fn raw(self) -> i32 {
        match self {
            ButtonMode::Control => 0,
            ButtonMode::Note => 1,
            ButtonMode::Invalid { n } => word_as_i32(n),
        }
    }

    open spec fn of_raw(raw: i32) -> Self {
        if raw == 0 {
            ButtonMode::Control
        } else if raw == 1 {
            ButtonMode::Note
        } else {
            ButtonMode::Invalid { n: i32_as_word(raw) }
        }
    }

    open spec fn wire_size() -> usize {
        1
    }

    fn size() -> (size: usize) {
        1
    }

    fn to_i32(self) -> (raw: i32) {
        match self {
            ButtonMode::Control => 0,
            ButtonMode::Note => 1,
            ButtonMode::Invalid { n } => signed(n),
        }
    }

    fn from_i32(raw: i32) -> (value: Self) {
        match raw {
            0 => ButtonMode::Control,
            1 => ButtonMode::Note,
            n => ButtonMode::Invalid { n: unsigned(n) },
        }
    }

    fn same(self, other: Self) -> (same: bool) {
        self == other
    }

    proof fn lemma_round_trip(raw: i32) {
    }

    proof fn lemma_wire_size() {
    }
}

impl ButtonMode {
    /// An integer that has no name stands for itself: it is kept as it is,
    /// and goes back over the wire as it came, in one byte.
    pub proof fn lemma_fallback(raw: i32)
        ensures
            raw != 0 && raw != 1 ==> Self::of_raw(raw) == (ButtonMode::Invalid { n: i32_as_word(raw) }),
            raw == 0 ==> Self::of_raw(raw) == ButtonMode::Control,
            raw == 1 ==> Self::of_raw(raw) == ButtonMode::Note,
            Self::of_raw(raw).raw() == raw,
            wire_value(Self::of_raw(raw)) == (ParameterValue { value: raw, size: 1 }),
    {
    }
}

impl FromSpecImpl<i32> for ButtonMode {
    open spec fn obeys_from_spec() -> bool {
        true
    }

    open spec fn from_spec(i: i32) -> Self {
        <ButtonMode as IntoParameterValue>::of_raw(i)
    }
}

impl From<i32> for ButtonMode {
    fn from(i: i32) -> (value: ButtonMode) {
        <ButtonMode as IntoParameterValue>::from_i32(i)
    }
}

impl FromSpecImpl<ButtonMode> for i32 {
    open spec fn obeys_from_spec() -> bool {
        true
    }

    open spec fn from_spec(v: ButtonMode) -> i32 {
        v.raw()
    }
}

impl From<ButtonMode> for i32 {
    fn from(v: ButtonMode) -> (raw: i32) {
        v.to_i32()
    }
}

impl FromSpecImpl<ButtonMode> for ParameterValue {
    open spec fn obeys_from_spec() -> bool {
        true
    }

    open spec fn from_spec(v: ButtonMode) -> ParameterValue {
        wire_value(v)
    }
}

impl From<ButtonMode> for ParameterValue {
    fn from(v: ButtonMode) -> (parameter: ParameterValue) {
        into_parameter_value(v)
    }
}

/// How a button behaves: momentary (0) or toggle (1).
#[derive(Clone, Copy, Debug, PartialEq, Eq, Structural)]
pub enum ButtonStyle {
    Momentary,
    Toggle,
    Invalid { n: u32 },
}

impl IntoParameterValue for ButtonStyle {
    open spec fn raw(self) -> i32 {
        match self {
            ButtonStyle::Momentary => 0,
            ButtonStyle::Toggle => 1,
            ButtonStyle::Invalid { n } => word_as_i32(n),
        }
    }

    open spec fn of_raw(raw: i32) -> Self {
        if raw == 0 {
            ButtonStyle::Momentary
        } else if raw == 1 {
            ButtonStyle::Toggle
        } else {
            ButtonStyle::Invalid { n: i32_as_word(raw) }
        }
    }

    open spec fn wire_size() -> usize {
        1
    }

    fn size() -> (size: usize) {
        1
    }

    fn to_i32(self) -> (raw: i32) {
        match self {
            ButtonStyle::Momentary => 0,
            ButtonStyle::Toggle => 1,
            ButtonStyle::Invalid { n } => signed(n),
        }
    }

    fn from_i32(raw: i32) -> (value: Self) {
        match raw {
            0 => ButtonStyle::Momentary,
            1 => ButtonStyle::Toggle,
            n => ButtonStyle::Invalid { n: unsigned(n) },
        }
    }

    fn same(self, other: Self) -> (same: bool) {
        self == other
    }

    proof fn lemma_round_trip(raw: i32) {
    }

    proof fn lemma_wire_size() {
    }
}

impl ButtonStyle {
    /// An integer that has no name stands for itself: it is kept as it is,
    /// and goes back over the wire as it came, in one byte.
    pub proof fn lemma_fallback(raw: i32)
        ensures
            raw != 0 && raw != 1 ==> Self::of_raw(raw) == (ButtonStyle::Invalid { n: i32_as_word(raw) }),
            raw == 0 ==> Self::of_raw(raw) == ButtonStyle::Momentary,
            raw == 1 ==> Self::of_raw(raw) == ButtonStyle::Toggle,
            Self::of_raw(raw).raw() == raw,
            wire_value(Self::of_raw(raw)) == (ParameterValue { value: raw, size: 1 }),
    {
    }
}

impl FromSpecImpl<i32> for ButtonStyle {
    open spec fn obeys_from_spec() -> bool {
        true
    }

    open spec fn from_spec(i: i32) -> Self {
        <ButtonStyle as IntoParameterValue>::of_raw(i)
    }
}

impl From<i32> for ButtonStyle {
    fn from(i: i32) -> (value: ButtonStyle) {
        <ButtonStyle as IntoParameterValue>::from_i32(i)
    }
}

impl FromSpecImpl<ButtonStyle> for i32 {
    open spec fn obeys_from_spec() -> bool {
        true
    }

    open spec fn from_spec(v: ButtonStyle) -> i32 {
        v.raw()
    }
}

impl From<ButtonStyle> for i32 {
    fn from(v: ButtonStyle) -> (raw: i32) {
        v.to_i32()
    }
}

impl FromSpecImpl<ButtonStyle> for ParameterValue {
    open spec fn obeys_from_spec() -> bool {
        true
    }

    open spec fn from_spec(v: ButtonStyle) -> ParameterValue {
        wire_value(v)
    }
}

impl From<ButtonStyle> for ParameterValue {
    fn from(v: ButtonStyle) -> (parameter: ParameterValue) {
        into_parameter_value(v)
    }
}

/// What a fader sends: a control change (0) or a pitch bend (2).
#[derive(Clone, Copy, Debug, PartialEq, Eq, Structural)]
pub enum FaderMode {
    Control,
    Pitch,
    Invalid { n: u32 },
}

impl IntoParameterValue for FaderMode {
    open spec fn raw(self) -> i32 {
        match self {
            FaderMode::Control => 0,
            FaderMode::Pitch => 2,
            FaderMode::Invalid { n } => word_as_i32(n),
        }
    }

    open spec fn of_raw(raw: i32) -> Self {
        if raw == 0 {
            FaderMode::Control
        } else if raw == 2 {
            FaderMode::Pitch
        } else {
            FaderMode::Invalid { n: i32_as_word(raw) }
        }
    }

    open spec fn wire_size() -> usize {
        1
    }

    fn size() -> (size: usize) {
        1
    }

    fn to_i32(self) -> (raw: i32) {
        match self {
            FaderMode::Control => 0,
            FaderMode::Pitch => 2,
            FaderMode::Invalid { n } => signed(n),
        }
    }

    fn from_i32(raw: i32) -> (value: Self) {
        match raw {
            0 => FaderMode::Control,
            2 => FaderMode::Pitch,
            n => FaderMode::Invalid { n: unsigned(n) },
        }
    }

    fn same(self, other: Self) -> (same: bool) {
        self == other
    }

    proof fn lemma_round_trip(raw: i32) {
    }

    proof fn lemma_wire_size() {
    }
}

impl FaderMode {
    /// An integer that has no name stands for itself: it is kept as it is,
    /// and goes back over the wire as it came, in one byte.
    pub proof fn lemma_fallback(raw: i32)
        ensures
            raw != 0 && raw != 2 ==> Self::of_raw(raw) == (FaderMode::Invalid { n: i32_as_word(raw) }),
            raw == 0 ==> Self::of_raw(raw) == FaderMode::Control,
            raw == 2 ==> Self::of_raw(raw) == FaderMode::Pitch,
            Self::of_raw(raw).raw() == raw,
            wire_value(Self::of_raw(raw)) == (ParameterValue { value: raw, size: 1 }),
    {
    }
}

impl FromSpecImpl<i32> for FaderMode {
    open spec fn obeys_from_spec() -> bool {
        true
    }

    open spec fn from_spec(i: i32) -> Self {
        <FaderMode as IntoParameterValue>::of_raw(i)
    }
}

impl From<i32> for FaderMode {
    fn from(i: i32) -> (value: FaderMode) {
        <FaderMode as IntoParameterValue>::from_i32(i)
    }
}

impl FromSpecImpl<FaderMode> for i32 {
    open spec fn obeys_from_spec() -> bool {
        true
    }

    open spec fn from_spec(v: FaderMode) -> i32 {
        v.raw()
    }
}

impl From<FaderMode> for i32 {
    fn from(v: FaderMode) -> (raw: i32) {
        v.to_i32()
    }
}

impl FromSpecImpl<FaderMode> for ParameterValue {
    open spec fn obeys_from_spec() -> bool {
        true
    }

    open spec fn from_spec(v: FaderMode) -> ParameterValue {
        wire_value(v)
    }
}

impl From<FaderMode> for ParameterValue {
    fn from(v: FaderMode) -> (parameter: ParameterValue) {
        into_parameter_value(v)
    }
}

} // verus!
