//! What the system tells of a human interface device, and whether that is
//! the device that is looked for.
//!
//! The system describes a device in lines of the form `KEY=value`. Three
//! keys count here: `HID_ID`, whose value is three hexadecimal numbers parted
//! by colons (bus, vendor id and product id), `HID_NAME` and `HID_UNIQ`.

use crate::device::bus::BusType;
use crate::device::text::hex_u32;
use crate::device::text::parse_hex;
use crate::device::text::same_text;
use crate::device::text::split;
use crate::device::text::split_at;
use crate::device::text::views;
use crate::device::transport::Identified;
use vstd::prelude::*;

verus! {

/// What the description of a device says of it.
#[derive(Debug)]
pub struct UEventInfo {
    bus_type: BusType,
    vendor_id: u16,
    product_id: u16,
    product_name: String,
    serial_number: String,
}

/// What a `UEventInfo` holds.
pub ghost struct UEventInfoView {
    pub bus_type: BusType,
    pub vendor_id: u16,
    pub product_id: u16,
    pub product_name: Seq<char>,
    pub serial_number: Seq<char>,
}

impl View for UEventInfo {
    type V = UEventInfoView;

    closed spec fn view(&self) -> UEventInfoView {
        UEventInfoView {
            bus_type: self.bus_type,
            vendor_id: self.vendor_id,
            product_id: self.product_id,
            product_name: self.product_name@,
            serial_number: self.serial_number@,
        }
    }
}

/// What the three numbers of a `HID_ID` say, each given as far as it could be
/// read: nothing unless all three are there; else the bus, if the first
/// number names one, and the vendor id and the product id, which are the low
/// 16 bits of the other two.
pub open spec fn hid_ids(bus: Option<u32>, vendor: Option<u32>, product: Option<u32>) -> Option<
    (Option<BusType>, u16, u16),
> {
    if bus is Some && vendor is Some && product is Some {
        Some(
            (
                BusType::of_number(bus->Some_0),
                (vendor->Some_0 % 0x1_0000) as u16,
                (product->Some_0 % 0x1_0000) as u16,
            ),
        )
    } else {
        None
    }
}

/// What the three numbers of a `HID_ID` say; see `hid_ids`.
pub fn hid_id(bus: Option<u32>, vendor: Option<u32>, product: Option<u32>) -> (ids: Option<
    (Option<BusType>, u16, u16),
>)
    ensures
        ids == hid_ids(bus, vendor, product),
{
    match (bus, vendor, product) {
        (Some(bus), Some(vendor), Some(product)) => {
            assert(vendor as u16 == vendor % 0x1_0000u32) by (bit_vector);
            assert(product as u16 == product % 0x1_0000u32) by (bit_vector);
            Some(
                (
                    BusType::from_u32(bus),
                    #[verifier::truncate]
                    (vendor as u16),
                    #[verifier::truncate]
                    (product as u16),
                ),
            )
        },
        _ => None,
    }
}

/// What is known of a device after some lines of its description.
pub ghost struct UEventScan {
    pub bus_type: Option<BusType>,
    pub vendor_id: Option<u16>,
    pub product_id: Option<u16>,
    pub product_name: Option<Seq<char>>,
    pub serial_number: Option<Seq<char>>,
}

impl UEventScan {
    /// Nothing is known yet.
    pub open spec fn empty() -> UEventScan {
        UEventScan {
            bus_type: None,
            vendor_id: None,
            product_id: None,
            product_name: None,
            serial_number: None,
        }
    }

    /// What the value of `HID_ID` adds: what its three hexadecimal numbers
    /// say. A bus number that names no bus leaves the bus unknown. Anything
    /// but three numbers adds nothing.
    pub open spec fn hid_id(self, numbers: Seq<Seq<char>>) -> UEventScan {
        if numbers.len() != 3 {
            self
        } else {
            match hid_ids(hex_u32(numbers[0]), hex_u32(numbers[1]), hex_u32(numbers[2])) {
                Some((bus_type, vendor_id, product_id)) => UEventScan {
                    bus_type,
                    vendor_id: Some(vendor_id),
                    product_id: Some(product_id),
                    ..self
                },
                None => self,
            }
        }
    }

    /// What one line adds. A line counts if it has exactly one `=` and one
    /// of the three keys before it; what it says replaces what an earlier
    /// line said.
    pub open spec fn line(self, line: Seq<char>) -> UEventScan {
        let parts = split(line, '=');
        if parts.len() != 2 {
            self
        } else if parts[0] == "HID_ID"@ {
            self.hid_id(split(parts[1], ':'))
        } else if parts[0] == "HID_NAME"@ {
            UEventScan { product_name: Some(parts[1]), ..self }
        } else if parts[0] == "HID_UNIQ"@ {
            UEventScan { serial_number: Some(parts[1]), ..self }
        } else {
            self
        }
    }

    /// What the first `count` of the lines add, one after the other.
    pub open spec fn lines(self, lines: Seq<Seq<char>>, count: int) -> UEventScan
        decreases count,
    {
        if count <= 0 {
            self
        } else {
            self.lines(lines, count - 1).line(lines[count - 1])
        }
    }

    /// The device, if everything is known of it.
    pub open spec fn info(self) -> Option<UEventInfoView> {
        if self.bus_type is Some && self.vendor_id is Some && self.product_id is Some
            && self.product_name is Some && self.serial_number is Some {
            Some(
                UEventInfoView {
                    bus_type: self.bus_type->Some_0,
                    vendor_id: self.vendor_id->Some_0,
                    product_id: self.product_id->Some_0,
                    product_name: self.product_name->Some_0,
                    serial_number: self.serial_number->Some_0,
                },
            )
        } else {
            None
        }
    }
}

/// What a description says of a device: what its lines add up to, if that is
/// everything.
pub open spec fn uevent_info(uevent: Seq<char>) -> Option<UEventInfoView> {
    let lines = split(uevent, '\n');
    UEventScan::empty().lines(lines, lines.len() as int).info()
}

impl UEventInfoView {
    /// Whether the device sits on a bus that the Midi-Fader can sit on and
    /// has the ids of `I`.
    pub open spec fn is_candidate<I: Identified>(self) -> bool {
        (self.bus_type == BusType::Usb || self.bus_type == BusType::Bluetooth) && self.vendor_id
            == I::VID && self.product_id == I::PID
    }
}

impl UEventInfo {
    /// Reads the description of a device. The result is `None` where the
    /// bus, an id, the name or the serial number is missing.
    pub fn new(uevent: &str) -> (info: Option<Self>)
        ensures
            uevent_info(uevent@) matches Some(view) ==> info is Some && info->Some_0@ == view,
            uevent_info(uevent@) is None ==> info is None,
    {
        let mut bus_type: Option<BusType> = None;
        let mut vendor_id: Option<u16> = None;
        let mut product_id: Option<u16> = None;
        let mut product_name: Option<&str> = None;
        let mut serial_number: Option<&str> = None;
        let lines = split_at(uevent, '\n');
        let mut at: usize = 0;
        while at < lines.len()
            invariant
                at <= lines@.len(),
                views(lines@) == split(uevent@, '\n'),
                UEventScan::empty().lines(split(uevent@, '\n'), at as int) == (UEventScan {
                    bus_type,
                    vendor_id,
                    product_id,
                    product_name: match product_name {
                        Some(name) => Some(name@),
                        None => None,
                    },
                    serial_number: match serial_number {
                        Some(number) => Some(number@),
                        None => None,
                    },
                }),
            decreases lines@.len() - at,
        {
            let line = lines[at];
            assert(line@ == split(uevent@, '\n')[at as int]) by {
                assert(views(lines@)[at as int] == line@);
            }
            let parts = split_at(line, '=');
            if parts.len() == 2 {
                let key = parts[0];
                let value = parts[1];
                assert(key@ == split(line@, '=')[0] && value@ == split(line@, '=')[1]) by {
                    assert(views(parts@)[0] == key@);
                    assert(views(parts@)[1] == value@);
                }
                if same_text(key, "HID_ID") {
                    let numbers = split_at(value, ':');
                    if numbers.len() == 3 {
                        assert(numbers@[0]@ == split(value@, ':')[0] && numbers@[1]@ == split(
                            value@,
                            ':',
                        )[1] && numbers@[2]@ == split(value@, ':')[2]) by {
                            assert(views(numbers@)[0] == numbers@[0]@);
                            assert(views(numbers@)[1] == numbers@[1]@);
                            assert(views(numbers@)[2] == numbers@[2]@);
                        }
                        match hid_id(
                            parse_hex(numbers[0]),
                            parse_hex(numbers[1]),
                            parse_hex(numbers[2]),
                        ) {
                            Some((bus, vendor, product)) => {
                                bus_type = bus;
                                vendor_id = Some(vendor);
                                product_id = Some(product);
                            },
                            None => {},
                        }
                    }
                } else if same_text(key, "HID_NAME") {
                    product_name = Some(value);
                } else if same_text(key, "HID_UNIQ") {
                    serial_number = Some(value);
                }
            }
            at += 1;
        }
        match (bus_type, vendor_id, product_id, product_name, serial_number) {
            (Some(bus_type), Some(vendor_id), Some(product_id), Some(name), Some(number)) => Some(
                UEventInfo {
                    bus_type,
                    vendor_id,
                    product_id,
                    product_name: name.to_owned(),
                    serial_number: number.to_owned(),
                },
            ),
            _ => None,
        }
    }

    /// The bus that the device sits on.
    pub fn bus_type(&self) -> (bus_type: BusType)
        ensures
            bus_type == self@.bus_type,
    {
        self.bus_type
    }

    /// The vendor id of the device.
    pub fn vendor_id(&self) -> (vendor_id: u16)
        ensures
            vendor_id == self@.vendor_id,
    {
        self.vendor_id
    }

    /// The product id of the device.
    pub fn product_id(&self) -> (product_id: u16)
        ensures
            product_id == self@.product_id,
    {
        self.product_id
    }

    /// The name of the device.
    pub fn product_name(&self) -> (product_name: &str)
        ensures
            product_name@ == self@.product_name,
    {
        self.product_name.as_str()
    }

    /// The serial number of the device.
    pub fn serial_number(&self) -> (serial_number: &str)
        ensures
            serial_number@ == self@.serial_number,
    {
        self.serial_number.as_str()
    }

    /// Whether the device sits on a bus that the Midi-Fader can sit on, USB
    /// or Bluetooth, and has the ids of `I`.
    pub fn is_candidate<I: Identified>(&self) -> (candidate: bool)
        ensures
            candidate == self@.is_candidate::<I>(),
    {
        (self.bus_type == BusType::Usb || self.bus_type == BusType::Bluetooth) && self.vendor_id
            == I::VID && self.product_id == I::PID
    }
}

/// Who made a device and what it is called.
#[derive(Debug)]
pub struct DeviceDetails {
    manufacturer: String,
    product: String,
}

/// What a `DeviceDetails` holds.
pub ghost struct DeviceDetailsView {
    pub manufacturer: Seq<char>,
    pub product: Seq<char>,
}

impl View for DeviceDetails {
    type V = DeviceDetailsView;

    closed spec fn view(&self) -> DeviceDetailsView {
        DeviceDetailsView { manufacturer: self.manufacturer@, product: self.product@ }
    }
}

impl DeviceDetailsView {
    /// The details of a device. On USB they are the manufacturer and the
    /// product that the USB device names, if it names both. On Bluetooth
    /// there is no manufacturer, and the product is the name of the device.
    /// On any other bus there are none.
    pub open spec fn of(
        uevent: UEventInfoView,
        usb_manufacturer: Option<Seq<char>>,
        usb_product: Option<Seq<char>>,
    ) -> Option<DeviceDetailsView> {
        if uevent.bus_type == BusType::Usb {
            if usb_manufacturer is Some && usb_product is Some {
                Some(
                    DeviceDetailsView {
                        manufacturer: usb_manufacturer->Some_0,
                        product: usb_product->Some_0,
                    },
                )
            } else {
                None
            }
        } else if uevent.bus_type == BusType::Bluetooth {
            Some(DeviceDetailsView { manufacturer: Seq::empty(), product: uevent.product_name })
        } else {
            None
        }
    }

    /// Whether the details are those of `I`.
    pub open spec fn matches<I: Identified>(self) -> bool {
        self.manufacturer == I::MANUFACTURER@ && self.product == I::PRODUCT@
    }
}

impl DeviceDetails {
    /// The details of a device, from its description and from the
    /// manufacturer and the product that the USB device it hangs on names,
    /// as far as there is one and it names them.
    pub fn new(
        uevent: &UEventInfo,
        usb_manufacturer: Option<String>,
        usb_product: Option<String>,
    ) -> (details: Option<Self>)
        ensures
            DeviceDetailsView::of(
                uevent@,
                match usb_manufacturer {
                    Some(text) => Some(text@),
                    None => None,
                },
                match usb_product {
                    Some(text) => Some(text@),
                    None => None,
                },
            ) matches Some(view) ==> details is Some && details->Some_0@ == view,
            DeviceDetailsView::of(
                uevent@,
                match usb_manufacturer {
                    Some(text) => Some(text@),
                    None => None,
                },
                match usb_product {
                    Some(text) => Some(text@),
                    None => None,
                },
            ) is None ==> details is None,
    {
        match uevent.bus_type {
            BusType::Usb => match (usb_manufacturer, usb_product) {
                (Some(manufacturer), Some(product)) => Some(DeviceDetails { manufacturer, product }),
                _ => None,
            },
            BusType::Bluetooth => Some(
                DeviceDetails {
                    manufacturer: String::new(),
                    product: uevent.product_name.clone(),
                },
            ),
            _ => None,
        }
    }

    /// Who made the device.
    pub fn manufacturer(&self) -> (manufacturer: &str)
        ensures
            manufacturer@ == self@.manufacturer,
    {
        self.manufacturer.as_str()
    }

    /// What the device is called.
    pub fn product(&self) -> (product: &str)
        ensures
            product@ == self@.product,
    {
        self.product.as_str()
    }

    /// Whether the manufacturer and the product are those of `I`.
    pub fn matches<I: Identified>(&self) -> (matches: bool)
        ensures
            matches == self@.matches::<I>(),
    {
        same_text(self.manufacturer.as_str(), I::MANUFACTURER) && same_text(
            self.product.as_str(),
            I::PRODUCT,
        )
    }
}

/// Whether a device is the one that is looked for: it sits on USB or
/// Bluetooth, has the ids of `I`, and its details are there and are those of
/// `I`.
pub fn filter_device<I: Identified>(uevent: &UEventInfo, details: Option<&DeviceDetails>) -> (found:
    bool)
    ensures
        found == (uevent@.is_candidate::<I>() && details is Some && details->Some_0@.matches::<
            I,
        >()),
{
    if !uevent.is_candidate::<I>() {
        return false;
    }
    match details {
        Some(details) => details.matches::<I>(),
        None => false,
    }
}

} // verus!
