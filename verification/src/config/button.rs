//! The parameters of one button, in the order in which they are read and
//! written.

use crate::config::modes::ButtonMode;
use crate::config::modes::ButtonStyle;
use crate::config::parameter::parameter_address;
use crate::config::parameter::BtnControl;
use crate::config::parameter::BtnMidiChannel;
use crate::config::parameter::BtnMode;
use crate::config::parameter::BtnNote;
use crate::config::parameter::BtnNoteVel;
use crate::config::parameter::BtnOff;
use crate::config::parameter::BtnOn;
use crate::config::parameter::BtnStyle;
use crate::config::parameter::ParameterView;
use crate::config::ranged::MidiChannel;
use crate::config::ranged::MidiValue;
use crate::config::value::IntoParameterValue;
use crate::device::parameter::ParameterValue;
use vstd::prelude::*;

verus! {

/// The settings of one button.
#[derive(Debug)]
pub struct Button {
    index: u32,
    channel: BtnMidiChannel,
    on: BtnOn,
    off: BtnOff,
    mode: BtnMode,
    control: BtnControl,
    note: BtnNote,
    note_vel: BtnNoteVel,
    style: BtnStyle,
}

/// What a `Button` holds: the channel index and its 8 parameters.
pub ghost struct ButtonView {
    pub index: u32,
    pub channel: ParameterView<MidiChannel>,
    pub on: ParameterView<MidiValue>,
    pub off: ParameterView<MidiValue>,
    pub mode: ParameterView<ButtonMode>,
    pub control: ParameterView<MidiValue>,
    pub note: ParameterView<MidiValue>,
    pub note_vel: ParameterView<MidiValue>,
    pub style: ParameterView<ButtonStyle>,
}

impl View for Button {
    type V = ButtonView;

    closed spec fn view(&self) -> ButtonView {
        ButtonView {
            index: self.index,
            channel: self.channel@,
            on: self.on@,
            off: self.off@,
            mode: self.mode@,
            control: self.control@,
            note: self.note@,
            note_vel: self.note_vel@,
            style: self.style@,
        }
    }
}

impl ButtonView {
    /// The address of parameter `slot` of the button of channel `index`.
    pub open spec fn address(index: u32, slot: int) -> u16 {
        if slot == 0 {
            parameter_address(index, 0x4001)
        } else if slot == 1 {
            parameter_address(index, 0x4002)
        } else if slot == 2 {
            parameter_address(index, 0x4003)
        } else if slot == 3 {
            parameter_address(index, 0x4004)
        } else if slot == 4 {
            parameter_address(index, 0x4005)
        } else if slot == 5 {
            parameter_address(index, 0x4006)
        } else if slot == 6 {
            parameter_address(index, 0x4007)
        } else if slot == 7 {
            parameter_address(index, 0x4008)
        } else {
            0
        }
    }

    /// The button of channel `index` as the device describes it: each parameter
    /// holds the value that stands for the integer read, and nothing waits to
    /// be written.
    pub open spec fn read(index: u32, values: Seq<i32>) -> ButtonView {
        ButtonView {
            index,
            channel: ParameterView {
                index,
                original: MidiChannel::of_raw(values[0]),
                pending: None,
            },
            on: ParameterView {
                index,
                original: MidiValue::of_raw(values[1]),
                pending: None,
            },
            off: ParameterView {
                index,
                original: MidiValue::of_raw(values[2]),
                pending: None,
            },
            mode: ParameterView {
                index,
                original: ButtonMode::of_raw(values[3]),
                pending: None,
            },
            control: ParameterView {
                index,
                original: MidiValue::of_raw(values[4]),
                pending: None,
            },
            note: ParameterView {
                index,
                original: MidiValue::of_raw(values[5]),
                pending: None,
            },
            note_vel: ParameterView {
                index,
                original: MidiValue::of_raw(values[6]),
                pending: None,
            },
            style: ParameterView {
                index,
                original: ButtonStyle::of_raw(values[7]),
                pending: None,
            },
        }
    }

    /// Whether every parameter belongs to channel `index`.
    pub open spec fn indexed(self, index: u32) -> bool {
        &&& self.index == index
        &&& self.channel.index == index
        &&& self.on.index == index
        &&& self.off.index == index
        &&& self.mode.index == index
        &&& self.control.index == index
        &&& self.note.index == index
        &&& self.note_vel.index == index
        &&& self.style.index == index
    }

    /// The address of parameter `slot`.
    pub open spec fn address_at(self, slot: int) -> u16 {
        if slot == 0 {
            parameter_address(self.channel.index, 0x4001)
        } else if slot == 1 {
            parameter_address(self.on.index, 0x4002)
        } else if slot == 2 {
            parameter_address(self.off.index, 0x4003)
        } else if slot == 3 {
            parameter_address(self.mode.index, 0x4004)
        } else if slot == 4 {
            parameter_address(self.control.index, 0x4005)
        } else if slot == 5 {
            parameter_address(self.note.index, 0x4006)
        } else if slot == 6 {
            parameter_address(self.note_vel.index, 0x4007)
        } else if slot == 7 {
            parameter_address(self.style.index, 0x4008)
        } else {
            0
        }
    }

    /// The change that waits to be written to parameter `slot`, if any, as
    /// it goes over the wire.
    pub open spec fn update_at(self, slot: int) -> Option<ParameterValue> {
        if slot == 0 {
            self.channel.pending_wire()
        } else if slot == 1 {
            self.on.pending_wire()
        } else if slot == 2 {
            self.off.pending_wire()
        } else if slot == 3 {
            self.mode.pending_wire()
        } else if slot == 4 {
            self.control.pending_wire()
        } else if slot == 5 {
            self.note.pending_wire()
        } else if slot == 6 {
            self.note_vel.pending_wire()
        } else if slot == 7 {
            self.style.pending_wire()
        } else {
            None
        }
    }

    /// The button after the change to parameter `slot` was written.
    pub open spec fn committed_at(self, slot: int) -> ButtonView {
        if slot == 0 {
            ButtonView { channel: self.channel.committed(), ..self }
        } else if slot == 1 {
            ButtonView { on: self.on.committed(), ..self }
        } else if slot == 2 {
            ButtonView { off: self.off.committed(), ..self }
        } else if slot == 3 {
            ButtonView { mode: self.mode.committed(), ..self }
        } else if slot == 4 {
            ButtonView { control: self.control.committed(), ..self }
        } else if slot == 5 {
            ButtonView { note: self.note.committed(), ..self }
        } else if slot == 6 {
            ButtonView { note_vel: self.note_vel.committed(), ..self }
        } else if slot == 7 {
            ButtonView { style: self.style.committed(), ..self }
        } else {
            self
        }
    }

    /// Whether nothing waits to be written.
    pub open spec fn settled(self) -> bool {
        &&& self.channel.settled()
        &&& self.on.settled()
        &&& self.off.settled()
        &&& self.mode.settled()
        &&& self.control.settled()
        &&& self.note.settled()
        &&& self.note_vel.settled()
        &&& self.style.settled()
    }
}

impl Button {
    /// The number of parameters of a button.
    pub const PARAMETERS: usize = 8;

    /// The address of parameter `slot` of the button of channel `index`.
    pub fn index_parameter(index: u32, slot: usize) -> (address: u16)
        ensures
            address == ButtonView::address(index, slot as int),
    {
        match slot {
            0 => BtnMidiChannel::index_parameter(index),
            1 => BtnOn::index_parameter(index),
            2 => BtnOff::index_parameter(index),
            3 => BtnMode::index_parameter(index),
            4 => BtnControl::index_parameter(index),
            5 => BtnNote::index_parameter(index),
            6 => BtnNoteVel::index_parameter(index),
            7 => BtnStyle::index_parameter(index),
            _ => 0,
        }
    }

    /// The button of channel `index` from the 8 integers that the device gave
    /// for its parameters, which stand in `values` from `at` on.
    pub fn read_from(index: u32, values: &[i32], at: usize) -> (button: Self)
        requires
            at + 8 <= values@.len(),
        ensures
            button@ == ButtonView::read(index, values@.subrange(at as int, at + 8)),
    {
        Button {
            index,
            channel: BtnMidiChannel::new(index, MidiChannel::from_i32(values[at])),
            on: BtnOn::new(index, MidiValue::from_i32(values[at + 1])),
            off: BtnOff::new(index, MidiValue::from_i32(values[at + 2])),
            mode: BtnMode::new(index, ButtonMode::from_i32(values[at + 3])),
            control: BtnControl::new(index, MidiValue::from_i32(values[at + 4])),
            note: BtnNote::new(index, MidiValue::from_i32(values[at + 5])),
            note_vel: BtnNoteVel::new(index, MidiValue::from_i32(values[at + 6])),
            style: BtnStyle::new(index, ButtonStyle::from_i32(values[at + 7])),
        }
    }

    /// The channel index.
    pub fn index(&self) -> (index: u32)
        ensures
            index == self@.index,
    {
        self.index
    }

    /// The MIDI channel.
    pub fn channel(&self) -> (parameter: &BtnMidiChannel)
        ensures
            parameter@ == self@.channel,
    {
        &self.channel
    }

    /// The MIDI channel, to change it.
    pub fn channel_mut(&mut self) -> (parameter: &mut BtnMidiChannel)
        ensures
            parameter@ == old(self)@.channel,
            final(self)@ == (ButtonView { channel: final(parameter)@, ..old(self)@ }),
    {
        &mut self.channel
    }

    /// The control value sent when the button goes on.
    pub fn on(&self) -> (parameter: &BtnOn)
        ensures
            parameter@ == self@.on,
    {
        &self.on
    }

    /// The control value sent when the button goes on, to change it.
    pub fn on_mut(&mut self) -> (parameter: &mut BtnOn)
        ensures
            parameter@ == old(self)@.on,
            final(self)@ == (ButtonView { on: final(parameter)@, ..old(self)@ }),
    {
        &mut self.on
    }

    /// The control value sent when the button goes off.
    pub fn off(&self) -> (parameter: &BtnOff)
        ensures
            parameter@ == self@.off,
    {
        &self.off
    }

    /// The control value sent when the button goes off, to change it.
    pub fn off_mut(&mut self) -> (parameter: &mut BtnOff)
        ensures
            parameter@ == old(self)@.off,
            final(self)@ == (ButtonView { off: final(parameter)@, ..old(self)@ }),
    {
        &mut self.off
    }

    /// What the button sends.
    pub fn mode(&self) -> (parameter: &BtnMode)
        ensures
            parameter@ == self@.mode,
    {
        &self.mode
    }

    /// What the button sends, to change it.
    pub fn mode_mut(&mut self) -> (parameter: &mut BtnMode)
        ensures
            parameter@ == old(self)@.mode,
            final(self)@ == (ButtonView { mode: final(parameter)@, ..old(self)@ }),
    {
        &mut self.mode
    }

    /// The control number.
    pub fn control(&self) -> (parameter: &BtnControl)
        ensures
            parameter@ == self@.control,
    {
        &self.control
    }

    /// The control number, to change it.
    pub fn control_mut(&mut self) -> (parameter: &mut BtnControl)
        ensures
            parameter@ == old(self)@.control,
            final(self)@ == (ButtonView { control: final(parameter)@, ..old(self)@ }),
    {
        &mut self.control
    }

    /// The note.
    pub fn note(&self) -> (parameter: &BtnNote)
        ensures
            parameter@ == self@.note,
    {
        &self.note
    }

    /// The note, to change it.
    pub fn note_mut(&mut self) -> (parameter: &mut BtnNote)
        ensures
            parameter@ == old(self)@.note,
            final(self)@ == (ButtonView { note: final(parameter)@, ..old(self)@ }),
    {
        &mut self.note
    }

    /// The velocity of the note.
    pub fn note_vel(&self) -> (parameter: &BtnNoteVel)
        ensures
            parameter@ == self@.note_vel,
    {
        &self.note_vel
    }

    /// The velocity of the note, to change it.
    pub fn note_vel_mut(&mut self) -> (parameter: &mut BtnNoteVel)
        ensures
            parameter@ == old(self)@.note_vel,
            final(self)@ == (ButtonView { note_vel: final(parameter)@, ..old(self)@ }),
    {
        &mut self.note_vel
    }

    /// How the button behaves.
    pub fn style(&self) -> (parameter: &BtnStyle)
        ensures
            parameter@ == self@.style,
    {
        &self.style
    }

    /// How the button behaves, to change it.
    pub fn style_mut(&mut self) -> (parameter: &mut BtnStyle)
        ensures
            parameter@ == old(self)@.style,
            final(self)@ == (ButtonView { style: final(parameter)@, ..old(self)@ }),
    {
        &mut self.style
    }

    /// The change that waits to be written to parameter `slot`, if any:
    /// the address to write to, and the value.
    pub fn get_update(&self, slot: usize) -> (update: Option<(u16, ParameterValue)>)
        ensures
            update == (match self@.update_at(slot as int) {
                Some(value) => Some((self@.address_at(slot as int), value)),
                None => None,
            }),
            update matches Some((_, value)) ==> value.has_wire_size(),
    {
        let (address, update) = match slot {
            0 => (self.channel.parameter(), self.channel.get_update_value()),
            1 => (self.on.parameter(), self.on.get_update_value()),
            2 => (self.off.parameter(), self.off.get_update_value()),
            3 => (self.mode.parameter(), self.mode.get_update_value()),
            4 => (self.control.parameter(), self.control.get_update_value()),
            5 => (self.note.parameter(), self.note.get_update_value()),
            6 => (self.note_vel.parameter(), self.note_vel.get_update_value()),
            7 => (self.style.parameter(), self.style.get_update_value()),
            _ => (0, None),
        };
        match update {
            Some(value) => Some((address, value)),
            None => None,
        }
    }

    /// Settles parameter `slot` once its pending change is written.
    pub fn commit(&mut self, slot: usize)
        ensures
            final(self)@ == old(self)@.committed_at(slot as int),
    {
        match slot {
            0 => self.channel.commit(),
            1 => self.on.commit(),
            2 => self.off.commit(),
            3 => self.mode.commit(),
            4 => self.control.commit(),
            5 => self.note.commit(),
            6 => self.note_vel.commit(),
            7 => self.style.commit(),
            _ => {},
        }
    }
}

} // verus!
