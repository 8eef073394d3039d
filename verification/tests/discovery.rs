use midi_fader::device::bus::BusType;
use midi_fader::device::text::same_text;
use midi_fader::device::text::split_at;
use midi_fader::device::transport::Bootloader;
use midi_fader::device::transport::MidiFader;
use midi_fader::device::uevent::filter_device;
use midi_fader::device::uevent::hid_id;
use midi_fader::device::uevent::DeviceDetails;
use midi_fader::device::uevent::UEventInfo;

const UEVENT: &str = "DRIVER=hid-generic\nHID_ID=0003:000016C0:000005DC\nHID_NAME=kevincuzner.com Midi-Fader\nHID_PHYS=usb-0000:00:14.0-2/input0\nHID_UNIQ=0001\nMODALIAS=hid:b0003g0001v000016C0p000005DC\n";

#[test]
fn bus_numbers() {
    assert_eq!(BusType::from_u32(0), None);
    assert_eq!(BusType::from_u32(1), Some(BusType::Pci));
    assert_eq!(BusType::from_u32(2), Some(BusType::IsaPnP));
    assert_eq!(BusType::from_u32(3), Some(BusType::Usb));
    assert_eq!(BusType::from_u32(4), Some(BusType::Hil));
    assert_eq!(BusType::from_u32(5), Some(BusType::Bluetooth));
    assert_eq!(BusType::from_u32(6), Some(BusType::Virtual));
    assert_eq!(BusType::from_u32(7), None);
    assert_eq!(BusType::from_u32(u32::MAX), None);
}

#[test]
fn splitting() {
    assert_eq!(split_at("", '='), vec![""]);
    assert_eq!(split_at("a", '='), vec!["a"]);
    assert_eq!(split_at("a=b", '='), vec!["a", "b"]);
    assert_eq!(split_at("=a==b=", '='), vec!["", "a", "", "b", ""]);
    assert_eq!(split_at("\u{e9}:\u{1F600}:x", ':'), vec!["\u{e9}", "\u{1F600}", "x"]);
    assert_eq!(split_at("a\nb\n", '\n'), "a\nb\n".split('\n').collect::<Vec<_>>());
    assert!(same_text("HID_ID", "HID_ID"));
    assert!(!same_text("HID_ID", "HID_IDS"));
    assert!(!same_text("hid_id", "HID_ID"));
}

#[test]
fn uevent_of_the_device() {
    let info = UEventInfo::new(UEVENT).unwrap();
    assert_eq!(info.bus_type(), BusType::Usb);
    assert_eq!(info.vendor_id(), 0x16c0);
    assert_eq!(info.product_id(), 0x05dc);
    assert_eq!(info.product_name(), "kevincuzner.com Midi-Fader");
    assert_eq!(info.serial_number(), "0001");
    assert!(info.is_candidate::<MidiFader>());
    assert!(info.is_candidate::<Bootloader>());
}

#[test]
fn uevent_needs_every_key() {
    assert!(UEventInfo::new("").is_none());
    assert!(UEventInfo::new("HID_ID=0003:000016C0:000005DC\nHID_NAME=x\n").is_none());
    assert!(UEventInfo::new("HID_ID=0003:000016C0:000005DC\nHID_UNIQ=x\n").is_none());
    assert!(UEventInfo::new("HID_NAME=x\nHID_UNIQ=y").is_none());
    assert!(UEventInfo::new("HID_ID=0003:000016C0:000005DC\nHID_NAME=x\nHID_UNIQ=").is_some());
}

#[test]
fn uevent_lines_that_do_not_count() {
    // two `=` in a line, two numbers, four numbers, no hexadecimal number
    let lines = [
        "HID_NAME=a=b",
        "HID_ID=0003:000016C0",
        "HID_ID=0003:000016C0:000005DC:1",
        "HID_ID=0003:wxyz:000005DC",
        "HID_ID=0003::000005DC",
        "HID_ID=100000000:1:1",
        "hid_id=0005:1:1",
    ];
    for line in lines.iter() {
        let text = format!("HID_ID=0003:000016C0:000005DC\nHID_NAME=x\nHID_UNIQ=y\n{}\n", line);
        let info = UEventInfo::new(&text).unwrap();
        assert_eq!(info.bus_type(), BusType::Usb);
        assert_eq!((info.vendor_id(), info.product_id()), (0x16c0, 0x05dc));
        assert_eq!((info.product_name(), info.serial_number()), ("x", "y"));
    }
}

#[test]
fn uevent_later_lines_win() {
    let info = UEventInfo::new("HID_NAME=a\nHID_UNIQ=b\nHID_ID=5:1:2\nHID_ID=3:12345:fffe\nHID_NAME=c")
        .unwrap();
    assert_eq!(info.bus_type(), BusType::Usb);
    // the ids are the low 16 bits
    assert_eq!((info.vendor_id(), info.product_id()), (0x2345, 0xfffe));
    assert_eq!((info.product_name(), info.serial_number()), ("c", "b"));
    // a bus number that names no bus takes the bus away again
    assert!(UEventInfo::new("HID_NAME=a\nHID_UNIQ=b\nHID_ID=5:1:2\nHID_ID=7:1:2").is_none());
    assert!(UEventInfo::new("HID_NAME=a\nHID_UNIQ=b\nHID_ID=7:1:2\nHID_ID=+5:1:2").is_some());
}

#[test]
fn details_by_bus() {
    let usb = UEventInfo::new(UEVENT).unwrap();
    let some = |text: &str| Some(text.to_string());
    let details = DeviceDetails::new(&usb, some("kevincuzner.com"), some("Midi-Fader")).unwrap();
    assert_eq!((details.manufacturer(), details.product()), ("kevincuzner.com", "Midi-Fader"));
    assert!(details.matches::<MidiFader>());
    assert!(!details.matches::<Bootloader>());
    assert!(DeviceDetails::new(&usb, None, some("Midi-Fader")).is_none());
    assert!(DeviceDetails::new(&usb, some("kevincuzner.com"), None).is_none());

    let bluetooth = UEventInfo::new("HID_ID=0005:16C0:05DC\nHID_NAME=Midi-Fader\nHID_UNIQ=1").unwrap();
    let details = DeviceDetails::new(&bluetooth, some("kevincuzner.com"), some("x")).unwrap();
    assert_eq!((details.manufacturer(), details.product()), ("", "Midi-Fader"));
    assert!(!details.matches::<MidiFader>());

    let pci = UEventInfo::new("HID_ID=0001:16C0:05DC\nHID_NAME=Midi-Fader\nHID_UNIQ=1").unwrap();
    assert!(DeviceDetails::new(&pci, some("kevincuzner.com"), some("Midi-Fader")).is_none());
}

#[test]
fn filtering() {
    let usb = UEventInfo::new(UEVENT).unwrap();
    let some = |text: &str| Some(text.to_string());
    let fader = DeviceDetails::new(&usb, some("kevincuzner.com"), some("Midi-Fader")).unwrap();
    let loader =
        DeviceDetails::new(&usb, some("kevincuzner.com"), some("Midi-Fader Bootloader")).unwrap();
    let other = DeviceDetails::new(&usb, some("someone"), some("Midi-Fader")).unwrap();
    assert!(filter_device::<MidiFader>(&usb, Some(&fader)));
    assert!(!filter_device::<Bootloader>(&usb, Some(&fader)));
    assert!(filter_device::<Bootloader>(&usb, Some(&loader)));
    assert!(!filter_device::<MidiFader>(&usb, Some(&other)));
    assert!(!filter_device::<MidiFader>(&usb, None));

    let vendor = UEventInfo::new("HID_ID=0003:16C1:05DC\nHID_NAME=x\nHID_UNIQ=1").unwrap();
    assert!(!vendor.is_candidate::<MidiFader>());
    assert!(!filter_device::<MidiFader>(&vendor, Some(&fader)));
    let product = UEventInfo::new("HID_ID=0003:16C0:05DD\nHID_NAME=x\nHID_UNIQ=1").unwrap();
    assert!(!filter_device::<MidiFader>(&product, Some(&fader)));
    let pci = UEventInfo::new("HID_ID=0001:16C0:05DC\nHID_NAME=x\nHID_UNIQ=1").unwrap();
    assert!(!filter_device::<MidiFader>(&pci, Some(&fader)));
}

#[test]
fn numbers_of_a_hid_id() {
    assert_eq!(hid_id(Some(3), Some(0x16C0), Some(0x05DC)), Some((Some(BusType::Usb), 0x16C0, 0x05DC)));
    assert_eq!(hid_id(Some(5), Some(0x1_2345), Some(0xFFFF_FFFE)), Some((Some(BusType::Bluetooth), 0x2345, 0xFFFE)));
    assert_eq!(hid_id(Some(9), Some(1), Some(2)), Some((None, 1, 2)));
    assert_eq!(hid_id(None, Some(1), Some(2)), None);
    assert_eq!(hid_id(Some(3), None, Some(2)), None);
    assert_eq!(hid_id(Some(3), Some(1), None), None);
}
