//! The parameters of one fader, in the order in which they are read and
//! written.

use crate::config::modes::FaderMode;
use crate::config::parameter::parameter_address;
use crate::config::parameter::FdrControl;
use crate::config::parameter::FdrControlMax;
use crate::config::parameter::FdrControlMin;
use crate::config::parameter::FdrMidiChannel;
use crate::config::parameter::FdrMode;
use crate::config::parameter::FdrPitchMax;
use crate::config::parameter::FdrPitchMin;
use crate::config::parameter::ParameterView;
use crate::config::ranged::MidiChannel;
use crate::config::ranged::MidiPitch;
use crate::config::ranged::MidiValue;
use crate::config::value::IntoParameterValue;
use crate::device::parameter::ParameterValue;
use vstd::prelude::*;

verus! {

/// The settings of one fader.
#[derive(Debug)]
pub struct Fader {
    index: u32,
    channel: FdrMidiChannel,
    mode: FdrMode,
    control: FdrControl,
    control_min: FdrControlMin,
    control_max: FdrControlMax,
    pitch_min: FdrPitchMin,
    pitch_max: FdrPitchMax,
}

/// What a `Fader` holds: the channel index and its 7 parameters.
pub ghost struct FaderView {
    pub index: u32,
    pub channel: ParameterView<MidiChannel>,
    pub mode: ParameterView<FaderMode>,
    pub control: ParameterView<MidiValue>,
    pub control_min: ParameterView<MidiValue>,
    pub control_max: ParameterView<MidiValue>,
    pub pitch_min: ParameterView<MidiPitch>,
    pub pitch_max: ParameterView<MidiPitch>,
}

impl View for Fader {
    type V = FaderView;

    closed spec fn view(&self) -> FaderView {
        FaderView {
            index: self.index,
            channel: self.channel@,
            mode: self.mode@,
            control: self.control@,
            control_min: self.control_min@,
            control_max: self.control_max@,
            pitch_min: self.pitch_min@,
            pitch_max: self.pitch_max@,
        }
    }
}

impl FaderView {
    /// The address of parameter `slot` of the fader of channel `index`.
    pub open spec fn address(index: u32, slot: int) -> u16 {
        if slot == 0 {
            parameter_address(index, 0x2001)
        } else if slot == 1 {
            parameter_address(index, 0x2002)
        } else if slot == 2 {
            parameter_address(index, 0x2003)
        } else if slot == 3 {
            parameter_address(index, 0x2004)
        } else if slot == 4 {
            parameter_address(index, 0x2005)
        } else if slot == 5 {
            parameter_address(index, 0x2006)
        } else if slot == 6 {
            parameter_address(index, 0x2007)
        } else {
            0
        }
    }

    /// The fader of channel `index` as the device describes it: each parameter
    /// holds the value that stands for the integer read, and nothing waits to
    /// be written.
    pub open spec fn read(index: u32, values: Seq<i32>) -> FaderView {
        FaderView {
            index,
            channel: ParameterView {
                index,
                original: MidiChannel::of_raw(values[0]),
                pending: None,
            },
            mode: ParameterView {
                index,
                original: FaderMode::of_raw(values[1]),
                pending: None,
            },
            control: ParameterView {
                index,
                original: MidiValue::of_raw(values[2]),
                pending: None,
            },
            control_min: ParameterView {
                index,
                original: MidiValue::of_raw(values[3]),
                pending: None,
            },
            control_max: ParameterView {
                index,
                original: MidiValue::of_raw(values[4]),
                pending: None,
            },
            pitch_min: ParameterView {
                index,
                original: MidiPitch::of_raw(values[5]),
                pending: None,
            },
            pitch_max: ParameterView {
                index,
                original: MidiPitch::of_raw(values[6]),
                pending: None,
            },
        }
    }

    /// Whether every parameter belongs to channel `index`.
    pub open spec fn indexed(self, index: u32) -> bool {
        &&& self.index == index
        &&& self.channel.index == index
        &&& self.mode.index == index
        &&& self.control.index == index
        &&& self.control_min.index == index
        &&& self.control_max.index == index
        &&& self.pitch_min.index == index
        &&& self.pitch_max.index == index
    }

    /// The address of parameter `slot`.
    pub open spec fn address_at(self, slot: int) -> u16 {
        if slot == 0 {
            parameter_address(self.channel.index, 0x2001)
        } else if slot == 1 {
            parameter_address(self.mode.index, 0x2002)
        } else if slot == 2 {
            parameter_address(self.control.index, 0x2003)
        } else if slot == 3 {
            parameter_address(self.control_min.index, 0x2004)
        } else if slot == 4 {
            parameter_address(self.control_max.index, 0x2005)
        } else if slot == 5 {
            parameter_address(self.pitch_min.index, 0x2006)
        } else if slot == 6 {
            parameter_address(self.pitch_max.index, 0x2007)
        } else {
            0
        }
    }

    /// The change that waits to be written to parameter `slot`, if any, as
    /// it goes over the wire.
    pub open spec fn update_at(self, slot: int) -> Option<ParameterValue> {
        if slot == 0 {
            self.channel.pending_wire()
        } else if slot == 1 {
            self.mode.pending_wire()
        } else if slot == 2 {
            self.control.pending_wire()
        } else if slot == 3 {
            self.control_min.pending_wire()
        } else if slot == 4 {
            self.control_max.pending_wire()
        } else if slot == 5 {
            self.pitch_min.pending_wire()
        } else if slot == 6 {
            self.pitch_max.pending_wire()
        } else {
            None
        }
    }

    /// The fader after the change to parameter `slot` was written.
    pub open spec fn committed_at(self, slot: int) -> FaderView {
        if slot == 0 {
            FaderView { channel: self.channel.committed(), ..self }
        } else if slot == 1 {
            FaderView { mode: self.mode.committed(), ..self }
        } else if slot == 2 {
            FaderView { control: self.control.committed(), ..self }
        } else if slot == 3 {
            FaderView { control_min: self.control_min.committed(), ..self }
        } else if slot == 4 {
            FaderView { control_max: self.control_max.committed(), ..self }
        } else if slot == 5 {
            FaderView { pitch_min: self.pitch_min.committed(), ..self }
        } else if slot == 6 {
            FaderView { pitch_max: self.pitch_max.committed(), ..self }
        } else {
            self
        }
    }

    /// Whether nothing waits to be written.
    pub open spec fn settled(self) -> bool {
        &&& self.channel.settled()
        &&& self.mode.settled()
        &&& self.control.settled()
        &&& self.control_min.settled()
        &&& self.control_max.settled()
        &&& self.pitch_min.settled()
        &&& self.pitch_max.settled()
    }
}

impl Fader {
    /// The number of parameters of a fader.
    pub const PARAMETERS: usize = 7;

    /// The address of parameter `slot` of the fader of channel `index`.
    pub fn index_parameter(index: u32, slot: usize) -> (address: u16)
        ensures
            address == FaderView::address(index, slot as int),
    {
        match slot {
            0 => FdrMidiChannel::index_parameter(index),
            1 => FdrMode::index_parameter(index),
            2 => FdrControl::index_parameter(index),
            3 => FdrControlMin::index_parameter(index),
            4 => FdrControlMax::index_parameter(index),
            5 => FdrPitchMin::index_parameter(index),
            6 => FdrPitchMax::index_parameter(index),
            _ => 0,
        }
    }

    /// The fader of channel `index` from the 7 integers that the device gave
    /// for its parameters, which stand in `values` from `at` on.
    pub fn read_from(index: u32, values: &[i32], at: usize) -> (fader: Self)
        requires
            at + 7 <= values@.len(),
        ensures
            fader@ == FaderView::read(index, values@.subrange(at as int, at + 7)),
    {
        Fader {
            index,
            channel: FdrMidiChannel::new(index, MidiChannel::from_i32(values[at])),
            mode: FdrMode::new(index, FaderMode::from_i32(values[at + 1])),
            control: FdrControl::new(index, MidiValue::from_i32(values[at + 2])),
            control_min: FdrControlMin::new(index, MidiValue::from_i32(values[at + 3])),
            control_max: FdrControlMax::new(index, MidiValue::from_i32(values[at + 4])),
            pitch_min: FdrPitchMin::new(index, MidiPitch::from_i32(values[at + 5])),
            pitch_max: FdrPitchMax::new(index, MidiPitch::from_i32(values[at + 6])),
        }
    }

    /// The channel index.
    pub fn index(&self) -> (index: u32)
        ensures
            index == self@.index,
    {
        self.index
    }

    /// The MIDI channel.
    pub fn channel(&self) -> (parameter: &FdrMidiChannel)
        ensures
            parameter@ == self@.channel,
    {
        &self.channel
    }

    /// The MIDI channel, to change it.
    pub fn channel_mut(&mut self) -> (parameter: &mut FdrMidiChannel)
        ensures
            parameter@ == old(self)@.channel,
            final(self)@ == (FaderView { channel: final(parameter)@, ..old(self)@ }),
    {
        &mut self.channel
    }

    /// What the fader sends.
    pub fn mode(&self) -> (parameter: &FdrMode)
        ensures
            parameter@ == self@.mode,
    {
        &self.mode
    }

    /// What the fader sends, to change it.
    pub fn mode_mut(&mut self) -> (parameter: &mut FdrMode)
        ensures
            parameter@ == old(self)@.mode,
            final(self)@ == (FaderView { mode: final(parameter)@, ..old(self)@ }),
    {
        &mut self.mode
    }

    /// The control number.
    pub fn control(&self) -> (parameter: &FdrControl)
        ensures
            parameter@ == self@.control,
    {
        &self.control
    }

    /// The control number, to change it.
    pub fn control_mut(&mut self) -> (parameter: &mut FdrControl)
        ensures
            parameter@ == old(self)@.control,
            final(self)@ == (FaderView { control: final(parameter)@, ..old(self)@ }),
    {
        &mut self.control
    }

    /// The least control value.
    pub fn control_min(&self) -> (parameter: &FdrControlMin)
        ensures
            parameter@ == self@.control_min,
    {
        &self.control_min
    }

    /// The least control value, to change it.
    pub fn control_min_mut(&mut self) -> (parameter: &mut FdrControlMin)
        ensures
            parameter@ == old(self)@.control_min,
            final(self)@ == (FaderView { control_min: final(parameter)@, ..old(self)@ }),
    {
        &mut self.control_min
    }

    /// The greatest control value.
    pub fn control_max(&self) -> (parameter: &FdrControlMax)
        ensures
            parameter@ == self@.control_max,
    {
        &self.control_max
    }

    /// The greatest control value, to change it.
    pub fn control_max_mut(&mut self) -> (parameter: &mut FdrControlMax)
        ensures
            parameter@ == old(self)@.control_max,
            final(self)@ == (FaderView { control_max: final(parameter)@, ..old(self)@ }),
    {
        &mut self.control_max
    }

    /// The least pitch.
    pub fn pitch_min(&self) -> (parameter: &FdrPitchMin)
        ensures
            parameter@ == self@.pitch_min,
    {
        &self.pitch_min
    }

    /// The least pitch, to change it.
    pub fn pitch_min_mut(&mut self) -> (parameter: &mut FdrPitchMin)
        ensures
            parameter@ == old(self)@.pitch_min,
            final(self)@ == (FaderView { pitch_min: final(parameter)@, ..old(self)@ }),
    {
        &mut self.pitch_min
    }

    /// The greatest pitch.
    pub fn pitch_max(&self) -> (parameter: &FdrPitchMax)
        ensures
            parameter@ == self@.pitch_max,
    {
        &self.pitch_max
    }

    /// The greatest pitch, to change it.
    pub fn pitch_max_mut(&mut self) -> (parameter: &mut FdrPitchMax)
        ensures
            parameter@ == old(self)@.pitch_max,
            final(self)@ == (FaderView { pitch_max: final(parameter)@, ..old(self)@ }),
    {
        &mut self.pitch_max
    }

    /// The change that waits to be written to parameter `slot`, if any:
    /// the address to write to, and the value.
    pub fn get_update(&self, slot: usize) -> (update: Option<(u16, ParameterValue)>)
        ensures
            update == (match self@.update_at(slot as int) {
                Some(value) => Some((self@.address_at(slot as int), value)),
                None => None,
            }),
            update matches Some((_, value)) ==> value.has_wire_size(),
    {
        let (address, update) = match slot {
            0 => (self.channel.parameter(), self.channel.get_update_value()),
            1 => (self.mode.parameter(), self.mode.get_update_value()),
            2 => (self.control.parameter(), self.control.get_update_value()),
            3 => (self.control_min.parameter(), self.control_min.get_update_value()),
            4 => (self.control_max.parameter(), self.control_max.get_update_value()),
            5 => (self.pitch_min.parameter(), self.pitch_min.get_update_value()),
            6 => (self.pitch_max.parameter(), self.pitch_max.get_update_value()),
            _ => (0, None),
        };
        match update {
            Some(value) => Some((address, value)),
            None => None,
        }
    }

    /// Settles parameter `slot` once its pending change is written.
    pub fn commit(&mut self, slot: usize)
        ensures
            final(self)@ == old(self)@.committed_at(slot as int),
    {
        match slot {
            0 => self.channel.commit(),
            1 => self.mode.commit(),
            2 => self.control.commit(),
            3 => self.control_min.commit(),
            4 => self.control_max.commit(),
            5 => self.pitch_min.commit(),
            6 => self.pitch_max.commit(),
            _ => {},
        }
    }
}

} // verus!
