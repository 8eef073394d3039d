use midi_fader::config::configure::configure;
use midi_fader::config::error::Error as ConfigError;
use midi_fader::device::error::Error;
use midi_fader::config::configure::delivered;
use midi_fader::config::configure::Configurator;
use midi_fader::config::configure::Received;
use midi_fader::config::configure::Request;
use midi_fader::config::configure::Response;
use midi_fader::config::device_config::DeviceConfig;
use midi_fader::config::ranged::MidiValue;
use midi_fader::device::command::MidiFaderCommand;
use midi_fader::device::command::Progress;
use midi_fader::device::command::ReadReport;
use midi_fader::device::extensions::MidiFaderExtensions;
use midi_fader::device::parameter::GetParameter;
use midi_fader::device::parameter::ParameterValue;
use midi_fader::device::parameter::SetParameter;
use midi_fader::device::report::MidiFaderCommandArgs;
use midi_fader::device::status::Status;
use midi_fader::device::transport::Async;
use midi_fader::device::transport::AsyncHidDevice;
use midi_fader::device::transport::Bootloader;
use midi_fader::device::transport::Identified;
use midi_fader::device::transport::MidiFader;
use midi_fader::device::transport::ReadAttempt;
use std::cell::RefCell;
use std::collections::HashMap;
use std::collections::VecDeque;
use std::sync::mpsc::channel;

/// A device in memory: it answers every request that is written to it.
#[derive(Debug, Default)]
struct Bench {
    memory: RefCell<HashMap<u16, (u32, u32)>>,
    answers: RefCell<VecDeque<Vec<u8>>>,
    written: RefCell<Vec<Vec<u8>>>,
    /// polls that find nothing before each answer
    stalls: usize,
    stalled: RefCell<usize>,
    /// the byte count to claim, where it is not the true one
    claim: Option<usize>,
    /// the number of the write that fails, counted from 1
    fail_write: Option<usize>,
    /// the number of the read that fails, counted from 1
    fail_read: Option<usize>,
    reads: RefCell<usize>,
    /// the status that every answer carries
    status: u32,
}

fn word(frame: &[u8], index: usize) -> u32 {
    let at = 1 + 4 * index;
    u32::from_le_bytes([frame[at], frame[at + 1], frame[at + 2], frame[at + 3]])
}

fn report(words: &[u32]) -> Vec<u8> {
    let mut report = vec![0u8; 64];
    for (index, value) in words.iter().enumerate() {
        report[4 * index..4 * index + 4].copy_from_slice(&value.to_le_bytes());
    }
    report
}

impl AsyncHidDevice<MidiFader> for Bench {
    fn poll_read(&self, buffer: &mut [u8]) -> Result<Async<usize>, Error> {
        *self.reads.borrow_mut() += 1;
        if self.fail_read == Some(*self.reads.borrow()) {
            return Err(Error::Io);
        }
        if self.answers.borrow().is_empty() {
            return Ok(Async::NotReady);
        }
        if *self.stalled.borrow() < self.stalls {
            *self.stalled.borrow_mut() += 1;
            return Ok(Async::NotReady);
        }
        *self.stalled.borrow_mut() = 0;
        let answer = self.answers.borrow_mut().pop_front().unwrap();
        buffer[..answer.len()].copy_from_slice(&answer);
        Ok(Async::Ready(self.claim.unwrap_or(answer.len())))
    }

    fn write(&self, frame: &[u8]) -> Result<usize, Error> {
        self.written.borrow_mut().push(frame.to_vec());
        if self.fail_write == Some(self.written.borrow().len()) {
            return Err(Error::Io);
        }
        assert_eq!(frame.len(), 65);
        let address = word(frame, 2) as u16;
        let answer = match word(frame, 0) {
            0x00 => {
                let mut answer = report(&[0xDEAD_BEEF, 8]);
                answer[8..11].copy_from_slice(b"2.1");
                answer
            }
            0x40 => {
                let (raw, size) = self.memory.borrow().get(&address).copied().unwrap_or((1, 1));
                report(&[self.status, address as u32, raw, size])
            }
            0x80 => {
                self.memory.borrow_mut().insert(address, (word(frame, 3), word(frame, 4)));
                report(&[self.status])
            }
            other => panic!("unknown opcode {}", other),
        };
        self.answers.borrow_mut().push_back(answer);
        Ok(frame.len())
    }
}

fn opcodes(bench: &Bench) -> Vec<u32> {
    bench.written.borrow().iter().map(|frame| word(frame, 0)).collect()
}

#[test]
fn identity() {
    assert_eq!((MidiFader::VID, MidiFader::PID), (0x16c0, 0x05dc));
    assert_eq!((Bootloader::VID, Bootloader::PID), (0x16c0, 0x05dc));
    assert_eq!(MidiFader::MANUFACTURER, "kevincuzner.com");
    assert_eq!(MidiFader::PRODUCT, "Midi-Fader");
    assert_eq!(Bootloader::MANUFACTURER, "kevincuzner.com");
    assert_eq!(Bootloader::PRODUCT, "Midi-Fader Bootloader");
}

#[test]
fn read_attempts() {
    assert_eq!(ReadAttempt::Read(64).poll(), (Ok(Async::Ready(64)), false));
    assert_eq!(ReadAttempt::WouldBlock.poll(), (Ok(Async::NotReady), true));
    assert_eq!(ReadAttempt::Failed.poll(), (Err(Error::Io), false));
}

#[test]
fn read_report_takes_a_full_report() {
    let read = ReadReport::new(5u8, MidiFaderCommandArgs::new());
    assert_eq!(read.device(), &5);
    let read = match read.response(&[1u8; 10]) {
        Progress::Pending(read) => read,
        Progress::Ready(_) => panic!("ten bytes are no report"),
    };
    match read.response(&[1u8; 64]) {
        Progress::Ready((device, frame, n)) => {
            assert_eq!((device, n), (5, 64));
            assert_eq!(frame.as_ref()[0], 0);
            assert_eq!(&frame.as_ref()[1..], &[1u8; 64][..]);
        }
        Progress::Pending(_) => panic!("a full report completes the read"),
    }
}

#[test]
fn command_writes_once_then_reads() {
    let bench = Bench { stalls: 2, ..Bench::default() };
    let args = MidiFaderCommandArgs::new().set_command(0x40).unwrap();
    let mut command = MidiFaderCommand::new(bench, args);
    assert!(command.request().is_some());
    for _ in 0..2 {
        command = match command.poll().unwrap() {
            Progress::Pending(command) => command,
            Progress::Ready(_) => panic!("the device has nothing yet"),
        };
        assert!(command.request().is_none());
    }
    match command.poll().unwrap() {
        Progress::Ready((bench, answer, n)) => {
            assert_eq!(n, 64);
            assert_eq!(opcodes(&bench), vec![0x40]);
            assert_eq!(*bench.reads.borrow(), 3);
            assert_eq!(answer.parameter(1), Some(1));
        }
        Progress::Pending(_) => panic!("the answer is there"),
    }
}

#[test]
fn a_short_report_leaves_the_command_waiting() {
    let bench = Bench { claim: Some(63), ..Bench::default() };
    let command = bench.get_parameter(0x2001);
    let command = match command.poll().unwrap() {
        Progress::Pending(command) => command,
        Progress::Ready(_) => panic!("63 bytes are no report"),
    };
    assert!(command.request().is_none());
    assert_eq!(opcodes(command.device()), vec![0x40]);
}

#[test]
fn the_transport_fails() {
    let bench = Bench { fail_write: Some(1), ..Bench::default() };
    assert!(matches!(bench.get_parameter(0x2001).poll(), Err(Error::Io)));
    let bench = Bench { fail_read: Some(1), ..Bench::default() };
    assert!(matches!(bench.device_status().poll(), Err(Error::Io)));
    let bench = Bench { fail_read: Some(4), ..Bench::default() };
    assert!(matches!(DeviceConfig::new(bench).poll(), Err(Error::Io)));
}

#[test]
fn extensions() {
    let bench = Bench::default();
    bench.memory.borrow_mut().insert(0x4302, (0xFF, 1));
    let (bench, value) = match bench.get_parameter(0x4302).poll().unwrap() {
        Progress::Ready(done) => done,
        Progress::Pending(_) => panic!("the bench answers at once"),
    };
    assert_eq!(value, ParameterValue::new(-1, 1));
    let bench = match bench.set_parameter(0x4302, ParameterValue::new(-2, 2)).poll().unwrap() {
        Progress::Ready(bench) => bench,
        Progress::Pending(_) => panic!("the bench answers at once"),
    };
    assert_eq!(bench.memory.borrow().get(&0x4302), Some(&(0xFFFF_FFFE, 2)));
    {
        let written = bench.written.borrow();
        let frame = written.last().unwrap();
        assert_eq!((word(frame, 0), word(frame, 1), word(frame, 2)), (0x80, 0, 0x4302));
        assert_eq!((word(frame, 3), word(frame, 4), word(frame, 5)), (0xFFFF_FFFE, 2, 0));
    }
    let (bench, status) = match bench.device_status().poll().unwrap() {
        Progress::Ready(done) => done,
        Progress::Pending(_) => panic!("the bench answers at once"),
    };
    assert_eq!((status.channels(), status.version()), (8, "2.1"));
    assert_eq!(opcodes(&bench), vec![0x40, 0x80, 0x00]);

    let bench = Bench { status: 9, ..Bench::default() };
    assert!(matches!(bench.get_parameter(1).poll(), Err(Error::DeviceError(9))));
    let bench = Bench { status: 9, ..Bench::default() };
    let set = bench.set_parameter(1, ParameterValue::new(0, 4));
    assert!(matches!(set.poll(), Err(Error::DeviceError(9))));
}

#[test]
fn a_read_goes_on_where_it_stopped() {
    let bench = Bench { stalls: 1, ..Bench::default() };
    let mut read = DeviceConfig::new(bench);
    let mut polls = 0;
    let config = loop {
        polls += 1;
        read = match read.poll().unwrap() {
            Progress::Pending(read) => read,
            Progress::Ready(config) => break config,
        };
        assert_eq!(read.position() + 1, read.device().written.borrow().len());
    };
    assert_eq!(polls, 121);
    assert_eq!(opcodes(config.device()), vec![0x40; 120]);
    assert_eq!(config.group(7).unwrap().button().style().parameter(), 0x4708);
}

#[test]
fn a_commit_goes_on_where_it_stopped() {
    let bench = Bench::default();
    let mut config = match DeviceConfig::new(bench).poll().unwrap() {
        Progress::Ready(config) => config,
        Progress::Pending(_) => panic!("the bench answers at once"),
    };
    config.group_mut(0).unwrap().button_mut().on_mut().update(MidiValue::from(10));
    config.group_mut(6).unwrap().fader_mut().control_mut().update(MidiValue::from(11));
    let bench = config.discard();
    bench.written.borrow_mut().clear();
    let mut config = match DeviceConfig::new(Bench { stalls: 3, ..bench }).poll().unwrap() {
        Progress::Pending(read) => {
            let mut read = read;
            loop {
                read = match read.poll().unwrap() {
                    Progress::Pending(read) => read,
                    Progress::Ready(config) => break config,
                };
            }
        }
        Progress::Ready(_) => panic!("the bench stalls"),
    };
    config.device().written.borrow_mut().clear();
    config.group_mut(0).unwrap().button_mut().on_mut().update(MidiValue::from(10));
    config.group_mut(6).unwrap().fader_mut().control_mut().update(MidiValue::from(11));
    let mut write = match config.commit() {
        Progress::Pending(write) => write,
        Progress::Ready(_) => panic!("two changes wait"),
    };
    let mut polls = 0;
    let config = loop {
        polls += 1;
        write = match write.poll().unwrap() {
            Progress::Pending(write) => write,
            Progress::Ready(config) => break config,
        };
    };
    assert_eq!(polls, 7);
    assert_eq!(opcodes(config.device()), vec![0x80; 2]);
    assert_eq!(config.device().memory.borrow().get(&0x4002), Some(&(10, 1)));
    assert_eq!(config.device().memory.borrow().get(&0x2603), Some(&(11, 1)));
    assert!(matches!(config.commit(), Progress::Ready(_)));
}

#[test]
fn the_configurator_answers_each_request() {
    let (tx, rx) = channel();
    let request = Request::ReadConfiguration(Bench::default(), tx.clone());
    let reply = match configure(request) {
        Progress::Pending(work) => match work.poll() {
            Progress::Ready(reply) => reply,
            Progress::Pending(_) => panic!("the bench answers at once"),
        },
        Progress::Ready(_) => panic!("a read takes 120 answers"),
    };
    assert!(matches!(reply.response(), Response::Configured(_)));
    assert_eq!(reply.send(), Ok(()));
    let mut config = match rx.try_recv().unwrap() {
        Response::Configured(config) => config,
        Response::Error(e) => panic!("the read failed: {:?}", e),
    };
    assert_eq!(opcodes(config.device()), vec![0x40; 120]);

    // nothing to write: the response is there at once
    let reply = match configure(Request::WriteConfiguration(config, tx.clone())) {
        Progress::Ready(reply) => reply,
        Progress::Pending(_) => panic!("nothing waits to be written"),
    };
    assert_eq!(reply.send(), Ok(()));
    config = match rx.try_recv().unwrap() {
        Response::Configured(config) => config,
        Response::Error(e) => panic!("the commit failed: {:?}", e),
    };
    assert_eq!(opcodes(config.device()).len(), 120);

    config.group_mut(1).unwrap().button_mut().note_mut().update(MidiValue::from(64));
    let work = match configure(Request::WriteConfiguration(config, tx)) {
        Progress::Pending(work) => work,
        Progress::Ready(_) => panic!("a change waits"),
    };
    assert_eq!(work.device().written.borrow().len(), 120);
    let reply = match work.poll() {
        Progress::Ready(reply) => reply,
        Progress::Pending(_) => panic!("the bench answers at once"),
    };
    assert_eq!(reply.send(), Ok(()));
    match rx.try_recv().unwrap() {
        Response::Configured(config) => {
            assert_eq!(opcodes(config.device()).len(), 121);
            assert_eq!(config.device().memory.borrow().get(&0x4106), Some(&(64, 1)));
        }
        Response::Error(e) => panic!("the commit failed: {:?}", e),
    }
}

#[test]
fn the_configurator_reports_errors_and_goes_on() {
    let (tx, rx) = channel();
    let bench = Bench { status: 3, ..Bench::default() };
    let work = match configure(Request::ReadConfiguration(bench, tx.clone())) {
        Progress::Pending(work) => work,
        Progress::Ready(_) => panic!("a read takes 120 answers"),
    };
    let reply = match work.poll() {
        Progress::Ready(reply) => reply,
        Progress::Pending(_) => panic!("the bench answers at once"),
    };
    assert_eq!(reply.send(), Ok(()));
    match rx.try_recv().unwrap() {
        Response::Error(e) => {
            assert_eq!(e, ConfigError::DeviceError(Error::DeviceError(3)))
        }
        Response::Configured(_) => panic!("the device reported an error"),
    }

    // a failure that the transport reports by itself
    let work = match configure(Request::ReadConfiguration(Bench::default(), tx)) {
        Progress::Pending(work) => work,
        Progress::Ready(_) => panic!("a read takes 120 answers"),
    };
    assert!(work.request().is_some());
    let work = work.written();
    assert!(work.request().is_none());
    let work = match work.response(&report(&[0, 0, 5, 1])) {
        Progress::Pending(work) => work,
        Progress::Ready(_) => panic!("a read takes 120 answers"),
    };
    assert_eq!(work.fail(Error::Io).send(), Ok(()));
    match rx.try_recv().unwrap() {
        Response::Error(e) => {
            assert_eq!(e, ConfigError::DeviceError(Error::Io));
            assert_eq!(e, ConfigError::from(Error::Io));
        }
        Response::Configured(_) => panic!("the transport failed"),
    }
}

#[test]
fn a_response_that_nobody_waits_for_ends_the_configurator() {
    let (tx, rx) = channel();
    drop(rx);
    let work = match configure(Request::ReadConfiguration(Bench::default(), tx)) {
        Progress::Pending(work) => work,
        Progress::Ready(_) => panic!("a read takes 120 answers"),
    };
    let reply = match work.poll() {
        Progress::Ready(reply) => reply,
        Progress::Pending(_) => panic!("the bench answers at once"),
    };
    assert_eq!(reply.send(), Err(ConfigError::SendError));
    assert_eq!(delivered::<Bench>(Ok(())), Ok(()));
    assert_eq!(delivered::<Bench>(Err(Response::Error(ConfigError::TestError))), Err(ConfigError::SendError));
}

#[test]
fn the_configurator_takes_one_request_at_a_time() {
    let (tx, rx) = channel();
    assert!(matches!(Configurator::<Bench>::Idle.poll(), Ok(Configurator::Idle)));
    assert!(matches!(Received::<Bench>::Closed.receive(), Ok(None)));
    assert!(matches!(Received::<Bench>::Failed.receive(), Err(ConfigError::RecvError)));

    let bench = Bench { stalls: 1, ..Bench::default() };
    let request = Request::ReadConfiguration(bench, tx.clone());
    let mut state = Received::Request(request).receive().unwrap().unwrap();
    let mut polls = 0;
    while let Configurator::Busy(_) = state {
        assert!(rx.try_recv().is_err());
        state = state.poll().unwrap();
        polls += 1;
    }
    assert_eq!(polls, 121);
    let config = match rx.try_recv().unwrap() {
        Response::Configured(config) => config,
        Response::Error(e) => panic!("the read failed: {:?}", e),
    };

    // served at once, and the response is out before the configurator is idle
    let request = Request::WriteConfiguration(config, tx.clone());
    assert!(matches!(Received::Request(request).receive(), Ok(Some(Configurator::Idle))));
    let config = match rx.try_recv().unwrap() {
        Response::Configured(config) => config,
        Response::Error(e) => panic!("the commit failed: {:?}", e),
    };

    // nobody waits for the response
    drop(rx);
    let request = Request::WriteConfiguration(config, tx.clone());
    assert!(matches!(Received::Request(request).receive(), Err(ConfigError::SendError)));
    let request = Request::ReadConfiguration(Bench::default(), tx);
    let state = Received::Request(request).receive().unwrap().unwrap();
    assert!(matches!(state.poll(), Err(ConfigError::SendError)));
}

#[test]
fn what_a_read_makes_of_a_poll() {
    let read = || ReadReport::new(5u8, MidiFaderCommandArgs::new());
    assert!(matches!(read().polled(Err(Error::Io), &[1u8; 64]), Err(Error::Io)));
    assert!(matches!(read().polled(Err(Error::Utf8), &[1u8; 64]), Err(Error::Utf8)));
    assert!(matches!(read().polled(Ok(Async::NotReady), &[1u8; 64]), Ok(Progress::Pending(_))));
    assert!(matches!(read().polled(Ok(Async::Ready(63)), &[1u8; 64]), Ok(Progress::Pending(_))));
    assert!(matches!(read().polled(Ok(Async::Ready(64)), &[1u8; 63]), Ok(Progress::Pending(_))));
    match read().polled(Ok(Async::Ready(64)), &[1u8; 64]) {
        Ok(Progress::Ready((device, frame, n))) => {
            assert_eq!((device, n), (5, 64));
            assert_eq!(&frame.as_ref()[1..], &[1u8; 64][..]);
        }
        _ => panic!("a full report completes the read"),
    }
}

#[test]
fn what_a_command_makes_of_a_write_and_of_a_poll() {
    let command = || MidiFaderCommand::new(5u8, MidiFaderCommandArgs::new().set_command(0x40).unwrap());
    assert!(matches!(command().wrote(Err(Error::Io)), Err(Error::Io)));
    let written = command().wrote(Ok(65)).ok().unwrap();
    assert!(written.request().is_none());
    let written = command().wrote(Ok(3)).ok().unwrap();
    assert!(written.request().is_none());

    // the request is not written yet: a report is no answer
    let waiting = match command().polled(Ok(Async::Ready(64)), &[0u8; 64]) {
        Ok(Progress::Pending(command)) => command,
        _ => panic!("nothing was asked yet"),
    };
    assert!(waiting.request().is_some());
    assert!(matches!(command().written().polled(Err(Error::Io), &[0u8; 64]), Err(Error::Io)));
    let waiting = match command().written().polled(Ok(Async::NotReady), &[0u8; 64]) {
        Ok(Progress::Pending(command)) => command,
        _ => panic!("nothing was read"),
    };
    assert!(waiting.request().is_none());
    assert!(matches!(
        command().written().polled(Ok(Async::Ready(10)), &[0u8; 64]),
        Ok(Progress::Pending(_))
    ));
    match command().written().polled(Ok(Async::Ready(64)), &report(&[7, 8])) {
        Ok(Progress::Ready((device, answer, n))) => {
            assert_eq!((device, n), (5, 64));
            assert_eq!((answer.command(), answer.parameter(0)), (7, Some(8)));
        }
        _ => panic!("a full report completes the command"),
    }
}

fn answered(words: &[u32]) -> Result<Progress<MidiFaderCommand<u8>, (u8, MidiFaderCommandArgs, usize)>, Error> {
    Ok(MidiFaderCommand::new(5u8, MidiFaderCommandArgs::new()).written().response(&report(words)))
}

fn unanswered() -> Result<Progress<MidiFaderCommand<u8>, (u8, MidiFaderCommandArgs, usize)>, Error> {
    Ok(Progress::Pending(MidiFaderCommand::new(5u8, MidiFaderCommandArgs::new()).written()))
}

#[test]
fn what_the_requests_make_of_a_poll_of_their_command() {
    assert!(matches!(GetParameter::<u8>::polled(Err(Error::Io)), Err(Error::Io)));
    assert!(matches!(GetParameter::polled(unanswered()), Ok(Progress::Pending(_))));
    match GetParameter::polled(answered(&[0, 0, 0xFFFE, 2])) {
        Ok(Progress::Ready((device, value))) => assert_eq!((device, value), (5, ParameterValue::new(-2, 2))),
        _ => panic!("the answer holds a value"),
    }
    assert!(matches!(GetParameter::polled(answered(&[4, 0, 1, 1])), Err(Error::DeviceError(4))));
    assert!(matches!(GetParameter::polled(answered(&[0, 0, 1, 8])), Err(Error::ParameterSizeError(8))));

    assert!(matches!(SetParameter::<u8>::polled(Err(Error::Io)), Err(Error::Io)));
    assert!(matches!(SetParameter::polled(unanswered()), Ok(Progress::Pending(_))));
    assert!(matches!(SetParameter::polled(answered(&[0])), Ok(Progress::Ready(5))));
    assert!(matches!(SetParameter::polled(answered(&[6])), Err(Error::DeviceError(6))));

    assert!(matches!(Status::<u8>::polled(Err(Error::Io)), Err(Error::Io)));
    assert!(matches!(Status::polled(unanswered()), Ok(Progress::Pending(_))));
    match Status::polled(answered(&[0xDEAD_BEEF, 8, 0x0030_2E33])) {
        Ok(Progress::Ready((device, status))) => {
            assert_eq!((device, status.channels(), status.version()), (5, 8, "3.0"))
        }
        _ => panic!("the answer holds a status"),
    }
    assert!(matches!(Status::polled(answered(&[1, 8])), Err(Error::UnexpectedResponseError)));
}

#[test]
fn what_the_configurator_makes_of_a_send() {
    assert!(matches!(Configurator::<Bench>::sent(Ok(())), Ok(Configurator::Idle)));
    assert!(matches!(
        Configurator::<Bench>::sent(Err(ConfigError::SendError)),
        Err(ConfigError::SendError)
    ));
}
