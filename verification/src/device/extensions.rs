//! The commands of the Midi-Fader, as methods of the device.

use crate::device::command::CommandView;
use crate::device::parameter::get_parameter_request;
use crate::device::parameter::set_parameter_request;
use crate::device::parameter::GetParameter;
use crate::device::parameter::ParameterValue;
use crate::device::parameter::SetParameter;
use crate::device::status::status_request;
use crate::device::status::Status;
use crate::device::transport::AsyncHidDevice;
use crate::device::transport::MidiFader;
use vstd::prelude::*;

verus! {

/// What can be asked of a Midi-Fader. Every transport to one has these
/// methods. Each takes the device and hands it back when the command is done.
pub trait MidiFaderExtensions<T: AsyncHidDevice<MidiFader>> {
    /// Asks for the status of the device.
    fn device_status(self) -> (status: Status<T>)
        ensures
            status@.data == status_request(),
            !status@.written,
    ;

    /// Asks for the value at address `parameter`.
    fn get_parameter(self, parameter: u16) -> (get: GetParameter<T>)
        ensures
            get@.data == get_parameter_request(parameter),
            !get@.written,
    ;

    /// Asks to set the value at address `parameter`. The size of the value
    /// is one that the device knows.
    fn set_parameter(self, parameter: u16, value: ParameterValue) -> (set: SetParameter<T>)
        requires
            value.has_wire_size(),
        ensures
            set@.data == set_parameter_request(parameter, value),
            !set@.written,
    ;
}

impl<T: AsyncHidDevice<MidiFader>> MidiFaderExtensions<T> for T {
    fn device_status(self) -> (status: Status<T>)
        ensures
            status@ == (CommandView { device: self, data: status_request(), written: false }),
    {
        Status::new(self)
    }

    fn get_parameter(self, parameter: u16) -> (get: GetParameter<T>)
        ensures
            get@ == (CommandView {
                device: self,
                data: get_parameter_request(parameter),
                written: false,
            }),
    {
        GetParameter::new(self, parameter)
    }

    fn set_parameter(self, parameter: u16, value: ParameterValue) -> (set: SetParameter<T>)
        ensures
            set@ == (CommandView {
                device: self,
                data: set_parameter_request(parameter, value),
                written: false,
            }),
    {
        SetParameter::new(self, parameter, value)
    }
}

} // verus!
