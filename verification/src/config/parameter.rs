//! One parameter of one channel: where it lives on the device, the value
//! that the device holds, and the change that waits to be written.

use crate::config::modes::ButtonMode;
use crate::config::modes::ButtonStyle;
use crate::config::modes::FaderMode;
use crate::config::ranged::MidiChannel;
use crate::config::ranged::MidiPitch;
use crate::config::ranged::MidiValue;
use crate::config::value::wire_value;
use crate::config::value::IntoParameterValue;
use crate::device::parameter::ParameterValue;
use vstd::prelude::*;

verus! {

/// The address of a parameter: the low four bits of the channel index in
/// bits 8 to 11, joined with the mask that names the parameter.
pub open spec fn parameter_address(index: u32, mask: u16) -> u16 {
    (((index & 0xF) as u16) << 8) | mask
}

/// Only the low four bits of the channel index reach the address.
pub proof fn lemma_address_low_bits(index: u32, other: u32, mask: u16)
    requires
        index & 0xF == other & 0xF,
    ensures
        parameter_address(index, mask) == parameter_address(other, mask),
{
}

/// For a channel index from 0 to 15 the address is the index, shifted into
/// the second byte, joined with the mask.
pub proof fn lemma_address_of_channel(index: u32, mask: u16)
    requires
        index <= 15,
    ensures
        parameter_address(index, mask) == ((index as u16) << 8) | mask,
{
    assert(index <= 15 ==> index & 0xF == index) by (bit_vector);
}

/// Where the mask leaves bits 8 to 11 free, as the masks of this device do,
/// the address is the mask plus 256 times the channel index.
pub proof fn lemma_address_sum(index: u32, mask: u16)
    requires
        index <= 15,
        mask & 0x0F00 == 0,
    ensures
        parameter_address(index, mask) == mask + 256 * index,
{
    assert(index <= 15 && mask & 0x0F00 == 0 ==> ((((index & 0xF) as u16) << 8) | mask) as int
        == mask as int + 256 * (index as int)) by (bit_vector);
}

/// A parameter of channel `index`, named by `MASK`.
#[derive(Debug)]
pub struct Parameter<V, const MASK: u16> {
    index: u32,
    value: V,
    update: Option<V>,
}

/// What a parameter holds: the channel index, the value that the device
/// holds, and the change that waits to be written, if any.
pub ghost struct ParameterView<V> {
    pub index: u32,
    pub original: V,
    pub pending: Option<V>,
}

impl<V> ParameterView<V> {
    /// The value as it will be: the pending change if there is one, the
    /// device's value otherwise.
    pub open spec fn value(self) -> V {
        match self.pending {
            Some(update) => update,
            None => self.original,
        }
    }

    /// After `update(value)`: the value waits to be written, unless it is the
    /// device's value, in which case nothing waits.
    pub open spec fn updated(self, value: V) -> Self {
        ParameterView {
            pending: if value == self.original {
                None
            } else {
                Some(value)
            },
            ..self
        }
    }

    /// After the pending change was dropped.
    pub open spec fn cleared(self) -> Self {
        ParameterView { pending: None, ..self }
    }

    /// After the pending change was written: it is the device's value now,
    /// and nothing waits.
    pub open spec fn committed(self) -> Self {
        ParameterView { original: self.value(), pending: None, ..self }
    }

    /// Whether nothing waits to be written.
    pub open spec fn settled(self) -> bool {
        self.pending is None
    }

    /// Whether a pending change really is a change.
    pub open spec fn minimal(self) -> bool {
        self.pending != Some(self.original)
    }
}

impl<V: IntoParameterValue> ParameterView<V> {
    /// The pending change as it goes over the wire.
    pub open spec fn pending_wire(self) -> Option<ParameterValue> {
        match self.pending {
            Some(update) => Some(wire_value(update)),
            None => None,
        }
    }
}

/// Updating to the device's own value leaves nothing to write; whatever the
/// update, a commit makes it the device's value and leaves nothing to write.
pub proof fn lemma_update_commit<V>(parameter: ParameterView<V>, value: V)
    ensures
        parameter.updated(parameter.original).settled(),
        value != parameter.original ==> parameter.updated(value).pending == Some(value),
        parameter.updated(value).minimal(),
        parameter.updated(value).value() == value,
        parameter.updated(value).committed() == (ParameterView {
            index: parameter.index,
            original: value,
            pending: None,
        }),
        parameter.settled() ==> parameter.committed() == parameter,
{
}

impl<V: Copy, const MASK: u16> Clone for Parameter<V, MASK> {
    fn clone(&self) -> (copy: Self)
        ensures
            copy == *self,
    {
        *self
    }
}

impl<V: Copy, const MASK: u16> Copy for Parameter<V, MASK> {

}

impl<V, const MASK: u16> View for Parameter<V, MASK> {
    type V = ParameterView<V>;

    closed spec fn view(&self) -> ParameterView<V> {
        ParameterView { index: self.index, original: self.value, pending: self.update }
    }
}

impl<V, const MASK: u16> Parameter<V, MASK> {
    /// A change that waits is a change: it differs from the value that the
    /// device holds.
    #[verifier::type_invariant]
    spec fn change_is_a_change(self) -> bool {
        self.update != Some(self.value)
    }
}

impl<V: IntoParameterValue, const MASK: u16> Parameter<V, MASK> {
    /// The parameter of channel `index`, with the value that the device
    /// holds and nothing to write.
    pub fn new(index: u32, value: V) -> (parameter: Self)
        ensures
            parameter@ == (ParameterView { index, original: value, pending: None }),
    {
        Parameter { index, value, update: None }
    }

    /// The channel index.
    pub fn index(&self) -> (index: u32)
        ensures
            index == self@.index,
    {
        self.index
    }

    /// The value as it will be: the pending change if there is one, the
    /// device's value otherwise.
    pub fn value(&self) -> (value: V)
        ensures
            value == self@.value(),
    {
        match self.update {
            Some(update) => update,
            None => self.value,
        }
    }

    /// The value that the device holds.
    pub fn original_value(&self) -> (value: V)
        ensures
            value == self@.original,
    {
        self.value
    }

    /// Asks for a new value. It waits to be written, unless it is the value
    /// that the device holds already: then nothing waits.
    pub fn update(&mut self, value: V)
        ensures
            final(self)@ == old(self)@.updated(value),
    {
        if self.value.same(value) {
            self.update = None;
        } else {
            self.update = Some(value);
        }
    }

    /// The change that waits to be written, if any. It differs from the
    /// value that the device holds.
    pub fn get_update(&self) -> (update: Option<V>)
        ensures
            update == self@.pending,
            self@.minimal(),
    {
        proof {
            use_type_invariant(self);
        }
        self.update
    }

    /// The change that waits to be written, if any, as it goes over the
    /// wire.
    pub fn get_update_value(&self) -> (update: Option<ParameterValue>)
        ensures
            update == self@.pending_wire(),
            update is Some ==> update->Some_0.has_wire_size(),
    {
        match self.update {
            Some(update) => Some(crate::config::value::into_parameter_value(update)),
            None => None,
        }
    }

    /// Drops the pending change.
    pub fn clear(&mut self)
        ensures
            final(self)@ == old(self)@.cleared(),
    {
        self.update = None;
    }

    /// Settles the parameter once its pending change is written: the change
    /// becomes the device's value and nothing waits any more.
    pub fn commit(&mut self)
        ensures
            final(self)@ == old(self)@.committed(),
    {
        match self.update {
            Some(update) => {
                self.update = None;
                self.value = update;
            },
            None => {},
        }
    }

    /// The address of this parameter on the device.
    pub fn parameter(&self) -> (address: u16)
        ensures
            address == parameter_address(self@.index, MASK),
    {
        Self::index_parameter(self.index)
    }

    /// The address of this parameter for channel `index`.
    pub fn index_parameter(index: u32) -> (address: u16)
        ensures
            address == parameter_address(index, MASK),
    {
        (((index & 0xF) as u16) << 8) | MASK
    }
}

/// The MIDI channel of a button.
pub type BtnMidiChannel = Parameter<MidiChannel, 0x4001>;

/// The control value that a button sends when it goes on.
pub type BtnOn = Parameter<MidiValue, 0x4002>;

/// The control value that a button sends when it goes off.
pub type BtnOff = Parameter<MidiValue, 0x4003>;

/// What a button sends.
pub type BtnMode = Parameter<ButtonMode, 0x4004>;

/// The control number of a button.
pub type BtnControl = Parameter<MidiValue, 0x4005>;

/// The note of a button.
pub type BtnNote = Parameter<MidiValue, 0x4006>;

/// The velocity of a button's note.
pub type BtnNoteVel = Parameter<MidiValue, 0x4007>;

/// How a button behaves.
pub type BtnStyle = Parameter<ButtonStyle, 0x4008>;

/// The MIDI channel of a fader.
pub type FdrMidiChannel = Parameter<MidiChannel, 0x2001>;

/// What a fader sends.
pub type FdrMode = Parameter<FaderMode, 0x2002>;

/// The control number of a fader.
pub type FdrControl = Parameter<MidiValue, 0x2003>;

/// The least control value of a fader.
pub type FdrControlMin = Parameter<MidiValue, 0x2004>;

/// The greatest control value of a fader.
pub type FdrControlMax = Parameter<MidiValue, 0x2005>;

/// The least pitch of a fader.
pub type FdrPitchMin = Parameter<MidiPitch, 0x2006>;

/// The greatest pitch of a fader.
pub type FdrPitchMax = Parameter<MidiPitch, 0x2007>;

} // verus!
