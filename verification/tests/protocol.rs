use midi_fader::device::error::Error;
use midi_fader::device::parameter::GetParameter;
use midi_fader::device::parameter::ParameterValue;
use midi_fader::device::parameter::SetParameter;
use midi_fader::device::report::MidiFaderCommandArgs;
use midi_fader::device::status::Status;

fn answer(words: &[(usize, u32)]) -> MidiFaderCommandArgs {
    let mut args = MidiFaderCommandArgs::new();
    for &(index, value) in words {
        args = if index == 0 {
            args.set_command(value).unwrap()
        } else {
            args.set_parameter(index - 1, value).unwrap()
        };
    }
    args
}

#[test]
fn new_frame_is_zero() {
    let args = MidiFaderCommandArgs::new();
    assert_eq!(args.as_ref(), &[0u8; 65][..]);
    assert_eq!(args.command(), 0);
    assert_eq!(args.parameters(), vec![0u32; 13]);
}

#[test]
fn words_are_little_endian_behind_the_report_index() {
    let args = MidiFaderCommandArgs::new().set_command(0x1234_5678).unwrap();
    assert_eq!(&args.as_ref()[..5], &[0, 0x78, 0x56, 0x34, 0x12]);
    let args = args.set_parameter(0, 0xA1B2_C3D4).unwrap();
    assert_eq!(&args.as_ref()[5..9], &[0xD4, 0xC3, 0xB2, 0xA1]);
    assert_eq!(args.command(), 0x1234_5678);
    assert_eq!(args.parameter(0), Some(0xA1B2_C3D4));
}

#[test]
fn parameter_index_bounds() {
    let args = MidiFaderCommandArgs::new().set_parameter(12, 7).unwrap();
    assert_eq!(args.parameter(12), Some(7));
    assert_eq!(&args.as_ref()[53..57], &[7, 0, 0, 0]);
    assert_eq!(args.parameters()[12], 7);
    assert_eq!(args.parameter(13), None);
    assert_eq!(args.parameter(usize::MAX), None);
    let same = args.set_parameter(13, 9).unwrap();
    assert_eq!(same.parameter(12), Some(7));
    assert_eq!(&same.as_ref()[57..], &[0u8; 8][..]);
}

#[test]
fn fill_takes_full_reports_only() {
    let mut args = MidiFaderCommandArgs::new().set_command(0x40).unwrap();
    assert!(!args.fill(&[1u8; 63]));
    assert!(!args.fill(&[1u8; 65]));
    assert_eq!(args.command(), 0x40);
    assert!(args.fill(&[1u8; 64]));
    assert_eq!(args.as_ref()[0], 0);
    assert_eq!(&args.as_ref()[1..], &[1u8; 64][..]);
}

#[test]
fn sign_decoding() {
    let get = |raw: u32, size: u32| GetParameter::<()>::decode(&answer(&[(2, raw), (3, size)]));
    assert_eq!(get(0x0000_00FF, 1), Ok(ParameterValue::new(-1, 1)));
    assert_eq!(get(0x0000_FFFF, 2), Ok(ParameterValue::new(-1, 2)));
    assert_eq!(get(0xFFFF_FFFF, 4), Ok(ParameterValue::new(-1, 4)));
    assert_eq!(get(0x0000_00FF, 3), Err(Error::ParameterSizeError(3)));
    assert_eq!(get(0x1234_567F, 1), Ok(ParameterValue::new(0x7F, 1)));
    assert_eq!(get(0x1234_5680, 1), Ok(ParameterValue::new(-128, 1)));
    assert_eq!(get(0x1234_E000, 2), Ok(ParameterValue::new(-8192, 2)));
    assert_eq!(get(0x1234_1FFF, 2), Ok(ParameterValue::new(8191, 2)));
    assert_eq!(get(0x7FFF_FFFF, 4), Ok(ParameterValue::new(i32::MAX, 4)));
    assert_eq!(get(0x8000_0000, 4), Ok(ParameterValue::new(i32::MIN, 4)));
    assert_eq!(get(5, 0), Err(Error::ParameterSizeError(0)));
}

#[test]
fn device_error_comes_before_the_size() {
    let value = GetParameter::<()>::decode(&answer(&[(0, 0xFFFF_FFFE), (2, 1), (3, 3)]));
    assert_eq!(value, Err(Error::DeviceError(-2)));
    assert_eq!(SetParameter::<()>::decode(&answer(&[(0, 7)])), Err(Error::DeviceError(7)));
    assert_eq!(SetParameter::<()>::decode(&answer(&[(0, 0), (1, 9)])), Ok(()));
}

fn status_report(magic: u32, channels: u32, version: &[u8]) -> Vec<u8> {
    let mut report = vec![0u8; 64];
    report[..4].copy_from_slice(&magic.to_le_bytes());
    report[4..8].copy_from_slice(&channels.to_le_bytes());
    report[8..8 + version.len()].copy_from_slice(version);
    report
}

#[test]
fn status_parsing() {
    let mut frame = MidiFaderCommandArgs::new();
    assert!(frame.fill(&status_report(0xDEAD_BEEF, 8, b"1.0\0")));
    let status = Status::<()>::decode(&frame).ok().unwrap();
    assert_eq!(status.channels(), 8);
    assert_eq!(status.version(), "1.0");

    let mut frame = MidiFaderCommandArgs::new();
    assert!(frame.fill(&status_report(0xDEAD_BEEE, 8, b"1.0\0")));
    assert!(matches!(Status::<()>::decode(&frame), Err(Error::UnexpectedResponseError)));
}

#[test]
fn status_version_edges() {
    let mut frame = MidiFaderCommandArgs::new();
    assert!(frame.fill(&status_report(0xDEAD_BEEF, 1, &[b'x'; 56])));
    assert_eq!(Status::<()>::decode(&frame).ok().unwrap().version(), "x".repeat(56));

    let mut frame = MidiFaderCommandArgs::new();
    assert!(frame.fill(&status_report(0xDEAD_BEEF, 1, b"")));
    assert_eq!(Status::<()>::decode(&frame).ok().unwrap().version(), "");

    let mut frame = MidiFaderCommandArgs::new();
    assert!(frame.fill(&status_report(0xDEAD_BEEF, 1, &[0xC3, 0xA9, 0, 0xFF])));
    assert_eq!(Status::<()>::decode(&frame).ok().unwrap().version(), "\u{e9}");

    let mut frame = MidiFaderCommandArgs::new();
    assert!(frame.fill(&status_report(0xDEAD_BEEF, 1, &[b'1', 0xFF, 0])));
    assert!(matches!(Status::<()>::decode(&frame), Err(Error::Utf8)));
}
