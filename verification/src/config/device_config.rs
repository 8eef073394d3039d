//! The configuration of a whole device, together with the device itself.

use crate::config::array::groups_view;
use crate::config::group::GroupConfig;
use crate::config::group::GroupConfigView;
use vstd::prelude::*;

verus! {

/// The configuration of a device: the device, which nobody else can use
/// meanwhile, and its eight channels.
#[derive(Debug)]
pub struct DeviceConfig<T> {
    device: T,
    groups: [GroupConfig; 8],
}

/// What a `DeviceConfig` holds.
pub ghost struct DeviceConfigView<T> {
    pub device: T,
    pub groups: Seq<GroupConfigView>,
}

impl<T> View for DeviceConfig<T> {
    type V = DeviceConfigView<T>;

    closed spec fn view(&self) -> DeviceConfigView<T> {
        DeviceConfigView { device: self.device, groups: groups_view(self.groups@) }
    }
}

impl<T> DeviceConfig<T> {
    /// Joins a device and its channels.
    pub(crate) fn from_parts(device: T, groups: [GroupConfig; 8]) -> (config: Self)
        ensures
            config@ == (DeviceConfigView { device, groups: groups_view(groups@) }),
    {
        DeviceConfig { device, groups }
    }

    /// Parts a device and its channels.
    pub(crate) fn into_parts(self) -> (parts: (T, [GroupConfig; 8]))
        ensures
            self@ == (DeviceConfigView { device: parts.0, groups: groups_view(parts.1@) }),
    {
        (self.device, self.groups)
    }

    /// The device that is configured.
    pub fn device(&self) -> (device: &T)
        ensures
            *device == self@.device,
    {
        &self.device
    }

    /// The number of channels.
    pub fn groups_len(&self) -> (len: usize)
        ensures
            len == 8,
            len == self@.groups.len(),
    {
        self.groups.len()
    }

    /// Channel `index`, if there is one.
    pub fn group(&self, index: usize) -> (group: Option<&GroupConfig>)
        ensures
            index < 8 ==> group is Some && group->Some_0@ == self@.groups[index as int],
            index >= 8 ==> group is None,
    {
        if index < 8 {
            Some(&self.groups[index])
        } else {
            None
        }
    }

    /// Channel `index`, if there is one, to change it.
    pub fn group_mut(&mut self, index: usize) -> (group: Option<&mut GroupConfig>)
        ensures
            final(self)@.device == old(self)@.device,
            index < 8 ==> group is Some && group->Some_0@ == old(self)@.groups[index as int]
                && final(self)@.groups =~= old(self)@.groups.update(
                index as int,
                final(group->Some_0)@,
            ),
            index >= 8 ==> group is None && final(self)@ == old(self)@,
    {
        if index < 8 {
            Some(&mut self.groups[index])
        } else {
            None
        }
    }

    /// All channels, to change them.
    pub fn groups_mut(&mut self) -> (groups: &mut [GroupConfig; 8])
        ensures
            groups_view(groups@) == old(self)@.groups,
            final(self)@ == (DeviceConfigView {
                groups: groups_view(final(groups)@),
                ..old(self)@
            }),
    {
        &mut self.groups
    }

    /// Drops the configuration, written or not, and gives the device back.
    /// Nothing is sent to the device.
    pub fn discard(self) -> (device: T)
        ensures
            device == self@.device,
    {
        self.device
    }
}

} // verus!
