//! Bus numbers as the kernel reports them for a human interface device.

use vstd::prelude::*;

verus! {

/// The bus a human interface device sits on.
#[derive(Clone, Copy, Debug, PartialEq, Eq, Structural)]
pub enum BusType {
    Pci,
    IsaPnP,
    Usb,
    Hil,
    Bluetooth,
    Virtual,
}

impl BusType {
    /// The number the kernel uses for this bus.
    pub open spec fn number(self) -> int {
        match self {
            BusType::Pci => 1,
            BusType::IsaPnP => 2,
            BusType::Usb => 3,
            BusType::Hil => 4,
            BusType::Bluetooth => 5,
            BusType::Virtual => 6,
        }
    }

    /// The bus with the given number, if there is one.
    pub open spec fn of_number(value: u32) -> Option<BusType> {
        if value == 1 {
            Some(BusType::Pci)
        } else if value == 2 {
            Some(BusType::IsaPnP)
        } else if value == 3 {
            Some(BusType::Usb)
        } else if value == 4 {
            Some(BusType::Hil)
        } else if value == 5 {
            Some(BusType::Bluetooth)
        } else if value == 6 {
            Some(BusType::Virtual)
        } else {
            None
        }
    }

    /// The bus with the given number, if there is one.
    pub fn from_u32(value: u32) -> (bus: Option<BusType>)
        ensures
            bus == Self::of_number(value),
            bus matches Some(found) ==> found.number() == value,
            bus is Some <==> 1 <= value <= 6,
    {
        match value {
            1 => Some(BusType::Pci),
            2 => Some(BusType::IsaPnP),
            3 => Some(BusType::Usb),
            4 => Some(BusType::Hil),
            5 => Some(BusType::Bluetooth),
            6 => Some(BusType::Virtual),
            _ => None,
        }
    }
}

} // verus!
