//! One channel of the device: a fader and a button.
//!
//! The 15 parameters of a channel have a fixed order, the 7 of the fader
//! first, then the 8 of the button. A slot is a place in that order.

use crate::config::button::Button;
use crate::config::button::ButtonView;
use crate::config::fader::Fader;
use crate::config::fader::FaderView;
use crate::device::parameter::ParameterValue;
use vstd::prelude::*;

verus! {

/// The slots of the fader, which come first.
const FADER_SLOTS: usize = 7;

/// The fader and the button of one channel.
#[derive(Debug)]
pub struct GroupConfig {
    index: u32,
    button: Button,
    fader: Fader,
}

/// What a `GroupConfig` holds.
pub ghost struct GroupConfigView {
    pub index: u32,
    pub button: ButtonView,
    pub fader: FaderView,
}

impl View for GroupConfig {
    type V = GroupConfigView;

    closed spec fn view(&self) -> GroupConfigView {
        GroupConfigView { index: self.index, button: self.button@, fader: self.fader@ }
    }
}

impl GroupConfigView {
    /// The address of the parameter in `slot` for channel `index`.
    pub open spec fn address(index: u32, slot: int) -> u16 {
        if slot < 7 {
            FaderView::address(index, slot)
        } else {
            ButtonView::address(index, slot - 7)
        }
    }

    /// The channel `index` as the device describes it by the 15 integers
    /// that it gave for the slots.
    pub open spec fn read(index: u32, values: Seq<i32>) -> GroupConfigView {
        GroupConfigView {
            index,
            button: ButtonView::read(index, values.subrange(7, 15)),
            fader: FaderView::read(index, values.subrange(0, 7)),
        }
    }

    /// Whether every parameter belongs to channel `index`.
    pub open spec fn indexed(self, index: u32) -> bool {
        &&& self.index == index
        &&& self.button.indexed(index)
        &&& self.fader.indexed(index)
    }

    /// The address of the parameter in `slot`.
    pub open spec fn address_at(self, slot: int) -> u16 {
        if slot < 7 {
            self.fader.address_at(slot)
        } else {
            self.button.address_at(slot - 7)
        }
    }

    /// The change that waits to be written to the parameter in `slot`, if
    /// any, as it goes over the wire.
    pub open spec fn update_at(self, slot: int) -> Option<ParameterValue> {
        if slot < 7 {
            self.fader.update_at(slot)
        } else {
            self.button.update_at(slot - 7)
        }
    }

    /// The channel after the change to the parameter in `slot` was written.
    pub open spec fn committed_at(self, slot: int) -> GroupConfigView {
        if slot < 7 {
            GroupConfigView { fader: self.fader.committed_at(slot), ..self }
        } else {
            GroupConfigView { button: self.button.committed_at(slot - 7), ..self }
        }
    }

    /// Whether nothing waits to be written.
    pub open spec fn settled(self) -> bool {
        self.fader.settled() && self.button.settled()
    }
}

/// A channel as read from the device is its own, with nothing to write.
pub proof fn lemma_read_settled(index: u32, values: Seq<i32>)
    ensures
        GroupConfigView::read(index, values).indexed(index),
        GroupConfigView::read(index, values).settled(),
        forall|slot: int| GroupConfigView::read(index, values).update_at(slot) is None,
{
}

/// Nothing waits in a settled channel, and writing a change leaves the other
/// slots and the addresses as they were.
pub proof fn lemma_committed_at(group: GroupConfigView, slot: int, other: int)
    ensures
        group.settled() ==> group.update_at(other) is None,
        group.committed_at(slot).address_at(other) == group.address_at(other),
        group.committed_at(slot).update_at(other) == (if other == slot {
            None
        } else {
            group.update_at(other)
        }),
        forall|index: u32| group.indexed(index) ==> group.committed_at(slot).indexed(index),
        group.update_at(slot) is None ==> group.committed_at(slot) == group,
{
}

impl GroupConfig {
    /// The number of parameters of a channel.
    pub const PARAMETERS: usize = 15;

    /// The address of the parameter in `slot` for channel `index`.
    pub fn index_parameter(index: u32, slot: usize) -> (address: u16)
        ensures
            address == GroupConfigView::address(index, slot as int),
    {
        if slot < FADER_SLOTS {
            Fader::index_parameter(index, slot)
        } else {
            Button::index_parameter(index, slot - FADER_SLOTS)
        }
    }

    /// The channel `index` from the 15 integers that the device gave for its
    /// slots, which stand in `values` from `at` on.
    pub fn get_group_configuration(index: u32, values: &[i32], at: usize) -> (group: Self)
        requires
            at + 15 <= values@.len(),
        ensures
            group@ == GroupConfigView::read(index, values@.subrange(at as int, at + 15)),
    {
        assert(values.len() == values@.len());
        let fader = Fader::read_from(index, values, at);
        let button = Button::read_from(index, values, at + FADER_SLOTS);
        proof {
            let slots = values@.subrange(at as int, at + 15);
            assert(slots.subrange(0, 7) =~= values@.subrange(at as int, at + 7));
            assert(slots.subrange(7, 15) =~= values@.subrange(at + 7, at + 7 + 8));
        }
        GroupConfig { index, button, fader }
    }

    /// The channel index.
    pub fn index(&self) -> (index: u32)
        ensures
            index == self@.index,
    {
        self.index
    }

    /// The button of the channel.
    pub fn button(&self) -> (button: &Button)
        ensures
            button@ == self@.button,
    {
        &self.button
    }

    /// The fader of the channel.
    pub fn fader(&self) -> (fader: &Fader)
        ensures
            fader@ == self@.fader,
    {
        &self.fader
    }

    /// The button of the channel, to change it.
    pub fn button_mut(&mut self) -> (button: &mut Button)
        ensures
            button@ == old(self)@.button,
            final(self)@ == (GroupConfigView { button: final(button)@, ..old(self)@ }),
    {
        &mut self.button
    }

    /// The fader of the channel, to change it.
    pub fn fader_mut(&mut self) -> (fader: &mut Fader)
        ensures
            fader@ == old(self)@.fader,
            final(self)@ == (GroupConfigView { fader: final(fader)@, ..old(self)@ }),
    {
        &mut self.fader
    }

    /// The change that waits to be written to the parameter in `slot`, if
    /// any: the address to write to, and the value.
    pub fn get_update(&self, slot: usize) -> (update: Option<(u16, ParameterValue)>)
        ensures
            update == (match self@.update_at(slot as int) {
                Some(value) => Some((self@.address_at(slot as int), value)),
                None => None,
            }),
            update matches Some((_, value)) ==> value.has_wire_size(),
    {
        if slot < FADER_SLOTS {
            self.fader.get_update(slot)
        } else {
            self.button.get_update(slot - FADER_SLOTS)
        }
    }

    /// Settles the parameter in `slot` once its pending change is written.
    pub fn commit(&mut self, slot: usize)
        ensures
            final(self)@ == old(self)@.committed_at(slot as int),
    {
        if slot < FADER_SLOTS {
            self.fader.commit(slot);
        } else {
            self.button.commit(slot - FADER_SLOTS);
        }
    }
}

} // verus!
