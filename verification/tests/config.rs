use midi_fader::config::array::read_all as groups_from;
use midi_fader::config::button::Button;
use midi_fader::config::device_config::DeviceConfig;
use midi_fader::config::fader::Fader;
use midi_fader::config::group::GroupConfig;
use midi_fader::config::parameter::BtnOn;
use midi_fader::config::parameter::FdrPitchMax;
use midi_fader::config::read::ReadConfiguration;
use midi_fader::config::modes::ButtonMode;
use midi_fader::config::modes::ButtonStyle;
use midi_fader::config::modes::FaderMode;
use midi_fader::config::value::IntoParameterValue;
use midi_fader::config::ranged::MidiChannel;
use midi_fader::config::ranged::MidiPitch;
use midi_fader::config::ranged::MidiValue;
use midi_fader::device::command::Progress;
use midi_fader::device::error::Error;
use midi_fader::device::parameter::ParameterValue;
use midi_fader::device::report::MidiFaderCommandArgs;

/// A device handle that can be told apart from any other.
#[derive(Debug, PartialEq)]
struct Handle(u32);

/// What a request asks for.
#[derive(Debug, PartialEq, Clone, Copy)]
enum Asked {
    Fetch(u16),
    Store(u16, i32, u32),
}

fn word(frame: &[u8], index: usize) -> u32 {
    let at = 1 + 4 * index;
    u32::from_le_bytes([frame[at], frame[at + 1], frame[at + 2], frame[at + 3]])
}

fn asked(args: &MidiFaderCommandArgs) -> Asked {
    let frame = args.as_ref();
    assert_eq!(frame.len(), 65);
    assert_eq!(frame[0], 0);
    assert_eq!(word(frame, 1), 0);
    match word(frame, 0) {
        0x40 => {
            assert!(frame[13..].iter().all(|b| *b == 0));
            Asked::Fetch(word(frame, 2) as u16)
        }
        0x80 => {
            assert!(frame[21..].iter().all(|b| *b == 0));
            Asked::Store(word(frame, 2) as u16, word(frame, 3) as i32, word(frame, 4))
        }
        other => panic!("unknown opcode {}", other),
    }
}

fn report(words: &[u32]) -> Vec<u8> {
    let mut report = vec![0u8; 64];
    for (index, value) in words.iter().enumerate() {
        report[4 * index..4 * index + 4].copy_from_slice(&value.to_le_bytes());
    }
    report
}

/// The value that the simulated device holds at an address.
fn held(address: u16) -> (u32, u32) {
    let channel = (address >> 8) & 0xF;
    match address & 0xF0FF {
        0x2001 | 0x4001 => (channel as u32, 1),
        0x2002 => (2, 1),
        0x4004 => (1, 1),
        0x4008 => (0, 1),
        0x2006 => (0xE000, 2),
        0x2007 => (0x1FFF, 2),
        other => ((other & 0x7F) as u32 + channel as u32, 1),
    }
}

fn read_all(device: Handle) -> (DeviceConfig<Handle>, Vec<Asked>) {
    let mut read = DeviceConfig::new(device);
    let mut log = Vec::new();
    loop {
        let request = asked(read.request().unwrap());
        log.push(request);
        read = read.written();
        assert!(read.request().is_none());
        let address = match request {
            Asked::Fetch(address) => address,
            other => panic!("unexpected {:?}", other),
        };
        let (raw, size) = held(address);
        match read.response(&report(&[0, address as u32, raw, size])).unwrap() {
            Progress::Pending(next) => read = next,
            Progress::Ready(config) => return (config, log),
        }
    }
}

fn commit_all(config: DeviceConfig<Handle>) -> (DeviceConfig<Handle>, Vec<Asked>) {
    let mut log = Vec::new();
    let mut write = match config.commit() {
        Progress::Ready(config) => return (config, log),
        Progress::Pending(write) => write,
    };
    loop {
        log.push(asked(write.request().unwrap()));
        write = write.written();
        match write.response(&report(&[0])).unwrap() {
            Progress::Pending(next) => write = next,
            Progress::Ready(config) => return (config, log),
        }
    }
}

fn plan() -> Vec<Asked> {
    let mut plan = Vec::new();
    for group in 0..8u16 {
        for mask in 0x2001..=0x2007u16 {
            plan.push(Asked::Fetch((group << 8) | mask));
        }
        for mask in 0x4001..=0x4008u16 {
            plan.push(Asked::Fetch((group << 8) | mask));
        }
    }
    plan
}

#[test]
fn address_encoding() {
    for index in 0..16u32 {
        assert_eq!(BtnOn::index_parameter(index), ((index as u16) << 8) | 0x4002);
        assert_eq!(FdrPitchMax::index_parameter(index), ((index as u16) << 8) | 0x2007);
        assert_eq!(BtnOn::index_parameter(index + 16), BtnOn::index_parameter(index));
        assert_eq!(BtnOn::index_parameter(index | 0xFFFF_FFF0), BtnOn::index_parameter(index));
        assert_eq!(BtnOn::new(index, MidiValue::new(1)).parameter(), 0x4002 + 256 * index as u16);
    }
    assert_eq!(BtnOn::index_parameter(3), 0x4302);
}

#[test]
fn range_validity_round_trip() {
    for n in 0..=127 {
        assert_eq!(MidiValue::from(n), MidiValue::Valid { n: n as u32 });
        assert_eq!(i32::from(MidiValue::from(n)), n);
    }
    assert_eq!(MidiValue::from(128), MidiValue::Invalid { n: 128 });
    assert_eq!(MidiValue::from(-1), MidiValue::Invalid { n: 0xFFFF_FFFF });
    assert_eq!(i32::from(MidiValue::from(128)), 128);
    assert_eq!(i32::from(MidiValue::from(-1)), -1);
    assert_eq!(i32::from(MidiValue::from(i32::MIN)), i32::MIN);
    assert_eq!(MidiValue::try_from_value(127), Some(MidiValue::Valid { n: 127 }));
    assert_eq!(MidiValue::try_from_value(128), None);
    assert_eq!(MidiValue::Valid { n: 5 }.value(), Some(5));
    assert_eq!(MidiValue::Invalid { n: 500 }.value(), None);
    assert_eq!(ParameterValue::from(MidiValue::from(-1)), ParameterValue::new(-1, 1));
    assert_eq!((MidiValue::MIN, MidiValue::MAX), (0, 127));
}

#[test]
fn channel_numbers_are_one_above() {
    assert_eq!(MidiChannel::try_from_channel(1), Some(MidiChannel::Valid { n: 0 }));
    assert_eq!(MidiChannel::try_from_channel(16), Some(MidiChannel::Valid { n: 15 }));
    assert_eq!(MidiChannel::try_from_channel(17), None);
    assert_eq!(MidiChannel::from(15).channel(), Some(16));
    assert_eq!(MidiChannel::from(16), MidiChannel::Invalid { n: 16 });
    assert_eq!(MidiChannel::from(16).channel(), None);
    assert_eq!(i32::from(MidiChannel::from(-3)), -3);
    assert_eq!((MidiChannel::MIN, MidiChannel::MAX), (0, 15));
    assert_eq!(ParameterValue::from(MidiChannel::from(4)), ParameterValue::new(4, 1));
}

#[test]
fn pitch_range() {
    assert_eq!(MidiPitch::from(-8192), MidiPitch::Valid { n: -8192 });
    assert_eq!(MidiPitch::from(8191), MidiPitch::Valid { n: 8191 });
    assert_eq!(MidiPitch::from(-8193), MidiPitch::Invalid { n: -8193 });
    assert_eq!(MidiPitch::from(8192), MidiPitch::Invalid { n: 8192 });
    assert_eq!(MidiPitch::try_from_value(8192), None);
    assert_eq!(MidiPitch::try_from_value(0).and_then(|p| p.value()), Some(0));
    assert_eq!(i32::from(MidiPitch::from(-8193)), -8193);
    assert_eq!(ParameterValue::from(MidiPitch::from(-10)), ParameterValue::new(-10, 2));
    assert_eq!((MidiPitch::MIN, MidiPitch::MAX), (-8192, 8191));
}

#[test]
fn enum_fallback() {
    assert_eq!(ButtonMode::from(99), ButtonMode::Invalid { n: 99 });
    assert_eq!(ParameterValue::from(ButtonMode::from(99)), ParameterValue::new(99, 1));
    assert_eq!(ButtonMode::from(0), ButtonMode::Control);
    assert_eq!(ButtonMode::from(1), ButtonMode::Note);
    assert_eq!(ButtonStyle::from(0), ButtonStyle::Momentary);
    assert_eq!(ButtonStyle::from(1), ButtonStyle::Toggle);
    assert_eq!(ButtonStyle::from(2), ButtonStyle::Invalid { n: 2 });
    assert_eq!(FaderMode::from(0), FaderMode::Control);
    assert_eq!(FaderMode::from(2), FaderMode::Pitch);
    assert_eq!(FaderMode::from(1), FaderMode::Invalid { n: 1 });
    assert_eq!(i32::from(FaderMode::Pitch), 2);
    assert_eq!(i32::from(FaderMode::from(-7)), -7);
    assert_eq!(ParameterValue::from(FaderMode::Pitch), ParameterValue::new(2, 1));
    assert_eq!(<ButtonMode as IntoParameterValue>::size(), 1);
    assert_eq!(<MidiPitch as IntoParameterValue>::size(), 2);
}

#[test]
fn update_commit_idempotence() {
    let mut field = BtnOn::new(2, MidiValue::from(5));
    assert_eq!(field.index(), 2);
    field.update(MidiValue::from(5));
    assert_eq!(field.get_update(), None);
    assert_eq!(field.get_update_value(), None);
    field.update(MidiValue::from(7));
    assert_eq!(field.get_update(), Some(MidiValue::from(7)));
    assert_eq!(field.get_update_value(), Some(ParameterValue::new(7, 1)));
    assert_eq!(field.value(), MidiValue::from(7));
    assert_eq!(field.original_value(), MidiValue::from(5));
    field.commit();
    assert_eq!(field.original_value(), MidiValue::from(7));
    assert_eq!(field.get_update(), None);
    field.commit();
    assert_eq!(field.original_value(), MidiValue::from(7));
    assert_eq!(field.value(), MidiValue::from(7));

    field.update(MidiValue::from(9));
    field.update(MidiValue::from(7));
    assert_eq!(field.get_update(), None);
    field.update(MidiValue::from(9));
    field.clear();
    assert_eq!(field.get_update(), None);
    assert_eq!(field.value(), MidiValue::from(7));
}

#[test]
fn full_read_order() {
    let (config, log) = read_all(Handle(7));
    assert_eq!(log.len(), 120);
    assert_eq!(log, plan());
    assert_eq!(config.groups_len(), 8);
    assert_eq!(config.device(), &Handle(7));
    for index in 0..8usize {
        let group = config.group(index).unwrap();
        assert_eq!(group.index(), index as u32);
        let fader = group.fader();
        assert_eq!(fader.index(), index as u32);
        assert_eq!(fader.channel().value(), MidiChannel::Valid { n: index as u32 });
        assert_eq!(fader.mode().value(), FaderMode::Pitch);
        assert_eq!(fader.control().value(), MidiValue::Valid { n: 3 + index as u32 });
        assert_eq!(fader.control_min().value(), MidiValue::Valid { n: 4 + index as u32 });
        assert_eq!(fader.control_max().value(), MidiValue::Valid { n: 5 + index as u32 });
        assert_eq!(fader.pitch_min().value(), MidiPitch::Valid { n: -8192 });
        assert_eq!(fader.pitch_max().value(), MidiPitch::Valid { n: 8191 });
        assert_eq!(fader.pitch_max().parameter(), 0x2007 | (index as u16) << 8);
        let button = group.button();
        assert_eq!(button.index(), index as u32);
        assert_eq!(button.channel().value(), MidiChannel::Valid { n: index as u32 });
        assert_eq!(button.on().value(), MidiValue::Valid { n: 2 + index as u32 });
        assert_eq!(button.off().value(), MidiValue::Valid { n: 3 + index as u32 });
        assert_eq!(button.mode().value(), ButtonMode::Note);
        assert_eq!(button.control().value(), MidiValue::Valid { n: 5 + index as u32 });
        assert_eq!(button.note().value(), MidiValue::Valid { n: 6 + index as u32 });
        assert_eq!(button.note_vel().value(), MidiValue::Valid { n: 7 + index as u32 });
        assert_eq!(button.style().value(), ButtonStyle::Momentary);
        assert_eq!(button.style().get_update(), None);
        assert_eq!(button.style().parameter(), 0x4008 | (index as u16) << 8);
    }
    assert!(config.group(8).is_none());
}

#[test]
fn minimal_write() {
    let (mut config, _) = read_all(Handle(1));
    config.group_mut(5).unwrap().button_mut().note_mut().update(MidiValue::from(100));
    config.group_mut(2).unwrap().fader_mut().pitch_min_mut().update(MidiPitch::from(-5));
    config.group_mut(2).unwrap().button_mut().mode_mut().update(ButtonMode::Control);
    // the same value as the device holds: nothing to write
    config.group_mut(0).unwrap().fader_mut().mode_mut().update(FaderMode::Pitch);
    let (mut config, log) = commit_all(config);
    assert_eq!(
        log,
        vec![Asked::Store(0x2206, -5, 2), Asked::Store(0x4204, 0, 1), Asked::Store(0x4506, 100, 1)]
    );
    assert_eq!(config.device(), &Handle(1));
    let note = *config.group(5).unwrap().button().note();
    assert_eq!(note.original_value(), MidiValue::from(100));
    assert_eq!(note.get_update(), None);
    let pitch = *config.group(2).unwrap().fader().pitch_min();
    assert_eq!(pitch.original_value(), MidiPitch::from(-5));
    assert_eq!(pitch.get_update(), None);
    assert!(config.group_mut(8).is_none());

    let (config, log) = commit_all(config);
    assert_eq!(log, vec![]);
    assert!(matches!(config.commit(), Progress::Ready(_)));
}

#[test]
fn commit_writes_first_and_last_position() {
    let (mut config, _) = read_all(Handle(1));
    config.group_mut(7).unwrap().button_mut().style_mut().update(ButtonStyle::Toggle);
    config.group_mut(0).unwrap().fader_mut().channel_mut().update(MidiChannel::from(9));
    let (config, log) = commit_all(config);
    assert_eq!(log, vec![Asked::Store(0x2001, 9, 1), Asked::Store(0x4708, 1, 1)]);
    assert_eq!(config.group(7).unwrap().button().style().original_value(), ButtonStyle::Toggle);
}

#[test]
fn discard_purity() {
    let (mut config, log) = read_all(Handle(42));
    assert_eq!(log.len(), 120);
    config.group_mut(3).unwrap().button_mut().on_mut().update(MidiValue::from(1));
    assert_eq!(config.discard(), Handle(42));
    let (config, _) = read_all(Handle(43));
    assert_eq!(config.discard(), Handle(43));
}

#[test]
fn read_stops_at_the_first_error() {
    let mut read = ReadConfiguration::new(Handle(0));
    for _ in 0..3 {
        read = read.written();
        read = match read.response(&report(&[0, 0, 1, 1])).unwrap() {
            Progress::Pending(next) => next,
            Progress::Ready(_) => panic!("done too early"),
        };
    }
    assert_eq!(read.position(), 3);
    assert_eq!(asked(read.request().unwrap()), Asked::Fetch(0x2004));
    let read = read.written();
    assert!(matches!(read.response(&report(&[0xFFFF_FFFF, 0, 1, 1])), Err(Error::DeviceError(-1))));

    let read = ReadConfiguration::new(Handle(0)).written();
    assert!(matches!(read.response(&report(&[0, 0, 1, 3])), Err(Error::ParameterSizeError(3))));
}

#[test]
fn commit_stops_at_the_first_error() {
    let (mut config, _) = read_all(Handle(1));
    config.group_mut(1).unwrap().button_mut().on_mut().update(MidiValue::from(1));
    config.group_mut(1).unwrap().button_mut().off_mut().update(MidiValue::from(2));
    let write = match config.commit() {
        Progress::Pending(write) => write,
        Progress::Ready(_) => panic!("nothing to write"),
    };
    assert_eq!(write.position(), 15 + 7 + 1);
    assert_eq!(write.device(), &Handle(1));
    let write = write.written();
    assert!(matches!(write.response(&report(&[5])), Err(Error::DeviceError(5))));
}

#[test]
fn only_a_full_report_after_the_request_is_an_answer() {
    let read = ReadConfiguration::new(Handle(0));
    // nothing was written yet
    let read = match read.response(&report(&[0, 0, 1, 1])).unwrap() {
        Progress::Pending(read) => read,
        Progress::Ready(_) => panic!("done too early"),
    };
    assert_eq!(read.position(), 0);
    assert!(read.request().is_some());
    let read = read.written();
    // too short, too long
    let read = match read.response(&[0u8; 63]).unwrap() {
        Progress::Pending(read) => read,
        Progress::Ready(_) => panic!("done too early"),
    };
    let read = match read.response(&[0u8; 65]).unwrap() {
        Progress::Pending(read) => read,
        Progress::Ready(_) => panic!("done too early"),
    };
    assert_eq!(read.position(), 0);
    assert!(read.request().is_none());
    let read = match read.response(&report(&[0, 0, 1, 1])).unwrap() {
        Progress::Pending(read) => read,
        Progress::Ready(_) => panic!("done too early"),
    };
    assert_eq!(read.position(), 1);
    assert_eq!(read.device(), &Handle(0));
}

#[test]
fn slots_are_the_fader_then_the_button() {
    for (slot, mask) in (0x2001..=0x2007u16).chain(0x4001..=0x4008u16).enumerate() {
        assert_eq!(GroupConfig::index_parameter(3, slot), 0x0300 | mask);
        assert_eq!(GroupConfig::index_parameter(19, slot), 0x0300 | mask);
    }
    assert_eq!(GroupConfig::index_parameter(3, 15), 0);
    assert_eq!(Fader::index_parameter(1, 6), 0x2107);
    assert_eq!(Fader::index_parameter(1, 7), 0);
    assert_eq!(Button::index_parameter(1, 7), 0x4108);
    assert_eq!(Button::index_parameter(1, 8), 0);
    assert_eq!((Fader::PARAMETERS, Button::PARAMETERS, GroupConfig::PARAMETERS), (7, 8, 15));
}

#[test]
fn a_group_is_read_from_its_fifteen_values() {
    let values: Vec<i32> = (0..20).map(|i| i - 2).collect();
    let group = GroupConfig::get_group_configuration(4, &values, 3);
    assert_eq!(group.index(), 4);
    assert_eq!(group.fader().channel().value(), MidiChannel::from(1));
    assert_eq!(group.fader().mode().value(), FaderMode::Pitch);
    assert_eq!(group.fader().pitch_max().value(), MidiPitch::from(7));
    assert_eq!(group.button().channel().value(), MidiChannel::from(8));
    assert_eq!(group.button().mode().value(), ButtonMode::Invalid { n: 11 });
    assert_eq!(group.button().style().value(), ButtonStyle::Invalid { n: 15 });
    for slot in 0..16 {
        assert_eq!(group.get_update(slot), None);
    }
    let fader = Fader::read_from(2, &[-1, 2, 128, 0, 127, -8193, 8192], 0);
    assert_eq!(fader.channel().value(), MidiChannel::Invalid { n: 0xFFFF_FFFF });
    assert_eq!(fader.control().value(), MidiValue::Invalid { n: 128 });
    assert_eq!(fader.pitch_min().value(), MidiPitch::Invalid { n: -8193 });
    assert_eq!(fader.pitch_max().value(), MidiPitch::Invalid { n: 8192 });
}

#[test]
fn updates_by_slot() {
    let values = vec![0i32; 15];
    let mut group = GroupConfig::get_group_configuration(2, &values, 0);
    group.fader_mut().pitch_min_mut().update(MidiPitch::from(-100));
    group.button_mut().style_mut().update(ButtonStyle::Toggle);
    assert_eq!(group.get_update(5), Some((0x2206, ParameterValue::new(-100, 2))));
    assert_eq!(group.get_update(14), Some((0x4208, ParameterValue::new(1, 1))));
    assert_eq!(group.fader().get_update(5), group.get_update(5));
    assert_eq!(group.button().get_update(7), group.get_update(14));
    assert_eq!(group.get_update(6), None);
    assert_eq!(group.get_update(15), None);
    // settling a slot in which nothing waits, or no slot at all, changes nothing
    group.commit(6);
    group.commit(15);
    assert_eq!(group.get_update(5), Some((0x2206, ParameterValue::new(-100, 2))));
    group.commit(5);
    assert_eq!(group.get_update(5), None);
    assert_eq!(group.fader().pitch_min().original_value(), MidiPitch::from(-100));
    assert_eq!(group.get_update(14), Some((0x4208, ParameterValue::new(1, 1))));
    group.button_mut().commit(7);
    assert_eq!(group.get_update(14), None);
    assert_eq!(group.button().style().original_value(), ButtonStyle::Toggle);
}

#[test]
fn all_groups_at_once() {
    let values: Vec<i32> = (0..120).collect();
    let groups = groups_from(&values);
    for (index, group) in groups.iter().enumerate() {
        assert_eq!(group.index(), index as u32);
        assert_eq!(group.fader().control().value(), MidiValue::from(15 * index as i32 + 2));
        assert_eq!(group.button().style().value(), ButtonStyle::from(15 * index as i32 + 14));
        assert_eq!(group.button().style().parameter(), 0x4008 | (index as u16) << 8);
    }
    let (mut config, _) = read_all(Handle(0));
    for group in config.groups_mut().iter_mut() {
        group.button_mut().on_mut().update(MidiValue::from(99));
    }
    let (_, log) = commit_all(config);
    let expected: Vec<Asked> = (0..8u16).map(|g| Asked::Store(0x4002 | g << 8, 99, 1)).collect();
    assert_eq!(log, expected);
}
