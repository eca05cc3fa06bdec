use rtl_tcp::commands::set_gain_packets;
use rtl_tcp::{
    configure_device, iq_pairs, AsyncRtlTcpReader, CommandPoll, ConnectAction, ConnectError, ConnectEvent,
    ConnectProgress, Connection, Error, Gain, InitReport, Packet, ReadErrorKind, ReadOutcome,
    RtlTcpCommand, RtlTcpConfig, RtlTcpDongleInfo, RtlTcpReader, Transmission,
    TransmissionProgress, TunerType, Worker, WorkerAction, WorkerEvent,
};

const GREETING: [u8; 12] = [b'R', b'T', b'L', b'0', 0, 0, 0, 5, 0, 0, 0, 29];

fn reader() -> RtlTcpReader {
    let (reader, _) = match RtlTcpReader::new(&RtlTcpConfig::default(), &GREETING) {
        Ok(made) => made,
        Err(error) => panic!("{}", error.message()),
    };
    reader
}

/// The packets written while a connection is opened, and how it ended.
fn open(
    config: &RtlTcpConfig,
    handshake: [u8; 12],
    failing_write: usize,
) -> (Vec<Packet>, Result<RtlTcpReader, ConnectError<u8>>) {
    let mut written: Vec<Packet> = Vec::new();
    let mut connection = Connection::open(config);
    loop {
        let event = match connection.action() {
            ConnectAction::Connect { address, timeout_secs } => {
                assert_eq!(address, config.address());
                assert_eq!(timeout_secs, 10);
                assert!(written.is_empty());
                ConnectEvent::Done
            }
            ConnectAction::SetReadTimeout { timeout_secs } => {
                assert_eq!(timeout_secs, 30);
                ConnectEvent::Done
            }
            ConnectAction::ReadHandshake => {
                assert!(written.is_empty());
                ConnectEvent::Handshake(handshake)
            }
            ConnectAction::Write(packet) => {
                if written.len() == failing_write {
                    ConnectEvent::Failed(77)
                } else {
                    written.push(packet);
                    ConnectEvent::Done
                }
            }
        };
        match connection.step(event) {
            ConnectProgress::Pending(next) => connection = next,
            ConnectProgress::Ready(reader) => return (written, Ok(reader)),
            ConnectProgress::Failed(error) => return (written, Err(error)),
        }
    }
}

#[test]
fn opening_writes_the_whole_configuration() {
    let config = RtlTcpConfig {
        gain: Gain::Manual(10),
        ppm_correction: 5,
        ..RtlTcpConfig::default()
    };
    let (written, end) = open(&config, GREETING, usize::MAX);
    assert_eq!(written, configure_device(&config));
    assert_eq!(written.len(), 7);
    let mut reader = end.ok().unwrap();
    assert_eq!(reader.dongle_info().tuner_type, TunerType::R820T);
    assert_eq!(reader.dongle_info().gain_count, 29);
    assert_eq!(reader.buffer().len(), 16384);
    assert!(reader.buffer().iter().all(|b| *b == 0));
}

#[test]
fn opening_with_bad_magic_writes_nothing() {
    let mut bad = GREETING;
    bad[3] = b'1';
    let (written, end) = open(&RtlTcpConfig::default(), bad, usize::MAX);
    assert!(written.is_empty());
    match end {
        Err(ConnectError::Client(Error::Device(message))) => assert_eq!(
            message,
            "Invalid rtl_tcp magic: expected 'RTL0', got [82, 84, 76, 49]"
        ),
        _ => panic!("accepted"),
    }
}

#[test]
fn opening_ends_with_the_first_failed_write() {
    let config = RtlTcpConfig::default();
    let all = configure_device(&config);
    for failing in 0..all.len() {
        let (written, end) = open(&config, GREETING, failing);
        assert_eq!(written[..], all[..failing]);
        assert!(matches!(end, Err(ConnectError::Transport(77))));
    }
}

#[test]
fn opening_with_invalid_address() {
    let config = RtlTcpConfig::default();
    let event: ConnectEvent<u8> = ConnectEvent::InvalidAddress("no such thing".to_string());
    match Connection::open(&config).step(event) {
        ConnectProgress::Failed(ConnectError::Client(error)) => {
            assert_eq!(error.message(), "Invalid address: no such thing")
        }
        _ => panic!("went on"),
    }
}

#[test]
fn opening_fails_with_the_transport() {
    let config = RtlTcpConfig::default();
    assert!(matches!(
        Connection::open(&config).step(ConnectEvent::Failed("refused")),
        ConnectProgress::Failed(ConnectError::Transport("refused"))
    ));
    let next = match Connection::open(&config).step::<&str>(ConnectEvent::Done) {
        ConnectProgress::Pending(next) => next,
        _ => panic!("ended"),
    };
    // A handshake counts only once it was asked for
    let next = match next.step::<&str>(ConnectEvent::Handshake(GREETING)) {
        ConnectProgress::Pending(next) => next,
        _ => panic!("ended"),
    };
    assert!(matches!(
        next.action(),
        ConnectAction::SetReadTimeout { timeout_secs: 30 }
    ));
    assert!(matches!(
        next.step(ConnectEvent::Failed("timed out")),
        ConnectProgress::Failed(ConnectError::Transport("timed out"))
    ));
}

/// The packets that a transmission writes, and the error that ended it.
fn transmit(transmission: Transmission, failing_write: usize) -> (Vec<Packet>, Option<u8>) {
    let mut written: Vec<Packet> = Vec::new();
    let mut transmission = transmission;
    loop {
        let packet = transmission.packet();
        let result = if written.len() == failing_write {
            Err(33)
        } else {
            written.push(packet);
            Ok(())
        };
        match transmission.step(result) {
            TransmissionProgress::Pending(rest) => transmission = rest,
            TransmissionProgress::Done => return (written, None),
            TransmissionProgress::Failed(error) => return (written, Some(error)),
        }
    }
}

#[test]
fn reader_settings_are_packets() {
    let reader = reader();
    assert_eq!(
        transmit(reader.set_frequency(7), usize::MAX),
        (vec![Packet { cmd: 0x01, value: 7 }], None)
    );
    assert_eq!(
        transmit(reader.set_sample_rate(8), usize::MAX),
        (vec![Packet { cmd: 0x02, value: 8 }], None)
    );
    for gain in [Gain::Auto, Gain::Manual(9)] {
        assert_eq!(
            transmit(reader.set_gain(gain), usize::MAX),
            (set_gain_packets(gain), None)
        );
    }
}

#[test]
fn transmission_stops_at_the_first_failure() {
    let all = set_gain_packets(Gain::Manual(9));
    for failing in 0..all.len() {
        let (written, error) = transmit(reader().set_gain(Gain::Manual(9)), failing);
        assert_eq!(written[..], all[..failing]);
        assert_eq!(error, Some(33));
    }
    assert_eq!(transmit(reader().set_frequency(1), 0), (vec![], Some(33)));
}

#[test]
fn new_reader_comes_with_its_setup() {
    let config = RtlTcpConfig { bias_tee: true, ..RtlTcpConfig::default() };
    let setup = match RtlTcpReader::new(&config, &GREETING) {
        Ok((_, setup)) => setup,
        Err(error) => panic!("{}", error.message()),
    };
    assert_eq!(transmit(setup, usize::MAX), (configure_device(&config), None));
    assert!(RtlTcpReader::new(&config, &[0; 12]).is_err());
}

#[test]
fn reader_chunks() {
    let mut reader = reader();
    for (i, b) in reader.buffer().iter_mut().enumerate() {
        *b = (i % 251) as u8;
    }
    assert!(reader.next::<u8>(ReadOutcome::Received(0)).is_none());
    assert_eq!(
        reader.next::<u8>(ReadOutcome::Received(4)),
        Some(Ok(&[0u8, 1, 2, 3][..]))
    );
    let whole = reader.next::<u8>(ReadOutcome::Received(16384)).unwrap().unwrap();
    assert_eq!(whole.len(), 16384);
    assert_eq!(whole[252], 1);
    assert_eq!(
        reader.next(ReadOutcome::Failed(ReadErrorKind::TimedOut, 5u8)),
        Some(Ok(&[][..]))
    );
    assert_eq!(
        reader.next(ReadOutcome::Failed(ReadErrorKind::WouldBlock, 5u8)),
        Some(Ok(&[][..]))
    );
    assert_eq!(
        reader.next(ReadOutcome::Failed(ReadErrorKind::Other, 5u8)),
        Some(Err(5))
    );
    assert_eq!(reader.buffer()[3], 3);
}

/// A thread that has reported and limited its reads.
fn polling() -> Worker {
    let (worker, action) = Worker::start::<u8>(Ok(&reader()));
    match action {
        WorkerAction::ReportReady(info) => {
            assert_eq!(info.tuner_type, TunerType::R820T);
            assert_eq!(info.gain_count, 29);
        }
        _ => panic!("no report"),
    }
    let (worker, action) = worker.step::<u8>(WorkerEvent::Done);
    assert!(matches!(
        action,
        WorkerAction::SetReadTimeout { timeout_millis: 100 }
    ));
    let (worker, action) = worker.step::<u8>(WorkerEvent::Done);
    assert!(matches!(action, WorkerAction::PollCommand));
    worker
}

fn take(worker: Worker, event: WorkerEvent<u8>) -> (Worker, WorkerAction<u8>) {
    worker.step(event)
}

fn command(command: RtlTcpCommand) -> WorkerEvent<u8> {
    WorkerEvent::Polled(CommandPoll::Received(command))
}

fn no_command() -> WorkerEvent<u8> {
    WorkerEvent::Polled(CommandPoll::Empty)
}

#[test]
fn failed_opening_is_reported_and_ends_the_thread() {
    let (worker, action) = Worker::start(Err(ConnectError::Transport(9u8)));
    assert!(matches!(
        action,
        WorkerAction::ReportFailure(ConnectError::Transport(9))
    ));
    let (_, action) = worker.step(no_command());
    assert!(matches!(action, WorkerAction::Stop));
}

#[test]
fn commands_are_written_before_the_read() {
    let (worker, action) = take(polling(), command(RtlTcpCommand::SetFrequency(5)));
    assert!(matches!(action, WorkerAction::Write(Packet { cmd: 0x01, value: 5 })));
    let (worker, action) = take(worker, WorkerEvent::Written(true));
    assert!(matches!(action, WorkerAction::Read));
    let (worker, action) = take(worker, WorkerEvent::Read(ReadOutcome::Received(8)));
    assert!(matches!(action, WorkerAction::Deliver(8)));
    let (worker, action) = take(worker, WorkerEvent::Delivered(true));
    assert!(matches!(action, WorkerAction::PollCommand));
    let (_, action) = take(worker, command(RtlTcpCommand::SetSampleRate(6)));
    assert!(matches!(action, WorkerAction::Write(Packet { cmd: 0x02, value: 6 })));
}

#[test]
fn gain_command_writes_the_gain_packets() {
    let (expected, _) = transmit(reader().set_gain(Gain::Manual(200)), usize::MAX);
    let mut written: Vec<Packet> = Vec::new();
    let (mut worker, mut action) = take(polling(), command(RtlTcpCommand::SetGain(Gain::Manual(200))));
    while let WorkerAction::Write(packet) = action {
        written.push(packet);
        (worker, action) = take(worker, WorkerEvent::Written(true));
    }
    assert!(matches!(action, WorkerAction::Read));
    assert_eq!(written, expected);
    // Only the read that was asked for counts
    let (_, action) = take(worker, WorkerEvent::Delivered(true));
    assert!(matches!(action, WorkerAction::Read));
}

#[test]
fn failed_write_ends_the_command_only() {
    let (worker, _) = take(polling(), command(RtlTcpCommand::SetGain(Gain::Auto)));
    let (worker, action) = take(worker, WorkerEvent::Written(false));
    assert!(matches!(action, WorkerAction::Read));
    let (_, action) = take(
        worker,
        WorkerEvent::Read(ReadOutcome::Failed(ReadErrorKind::TimedOut, 1)),
    );
    assert!(matches!(action, WorkerAction::PollCommand));
}

#[test]
fn timeouts_do_not_end_the_thread() {
    let mut worker = polling();
    for kind in [ReadErrorKind::WouldBlock, ReadErrorKind::TimedOut] {
        let (reading, action) = take(worker, no_command());
        assert!(matches!(action, WorkerAction::Read));
        let (next, action) = take(reading, WorkerEvent::Read(ReadOutcome::Failed(kind, 1)));
        assert!(matches!(action, WorkerAction::PollCommand));
        worker = next;
    }
}

#[test]
fn stop_and_disconnect_end_the_thread() {
    for event in [
        command(RtlTcpCommand::Stop),
        WorkerEvent::Polled(CommandPoll::Disconnected),
    ] {
        let (worker, action) = take(polling(), event);
        assert!(matches!(action, WorkerAction::Stop));
        let (_, action) = take(worker, command(RtlTcpCommand::SetFrequency(1)));
        assert!(matches!(action, WorkerAction::Stop));
    }
}

#[test]
fn closed_connection_ends_the_thread() {
    let (worker, _) = take(polling(), no_command());
    let (_, action) = take(worker, WorkerEvent::Read(ReadOutcome::Received(0)));
    assert!(matches!(action, WorkerAction::Stop));
}

#[test]
fn failed_read_is_delivered_and_ends_the_thread() {
    let (worker, _) = take(polling(), no_command());
    let (worker, action) = take(
        worker,
        WorkerEvent::Read(ReadOutcome::Failed(ReadErrorKind::Other, 42)),
    );
    assert!(matches!(action, WorkerAction::DeliverError(42)));
    let (_, action) = take(worker, WorkerEvent::Delivered(true));
    assert!(matches!(action, WorkerAction::Stop));
}

/// What a thread delivers when its reads come back so; each read fills the buffer with its number.
fn deliveries(outcomes: Vec<ReadOutcome<u8>>) -> Vec<Result<Vec<u8>, u8>> {
    let mut reader = reader();
    let mut outcomes = outcomes.into_iter();
    let mut reads: u8 = 0;
    let mut items: Vec<Result<Vec<u8>, u8>> = Vec::new();
    let mut worker = polling();
    let mut event = no_command();
    loop {
        let (next, action) = take(worker, event);
        worker = next;
        event = match action {
            WorkerAction::PollCommand => no_command(),
            WorkerAction::Read => match outcomes.next() {
                Some(outcome) => {
                    reads += 1;
                    reader.buffer().fill(reads);
                    WorkerEvent::Read(outcome)
                }
                None => return items,
            },
            WorkerAction::Deliver(n) => {
                items.push(Ok(reader.chunk(n).to_vec()));
                WorkerEvent::Delivered(true)
            }
            WorkerAction::DeliverError(error) => {
                items.push(Err(error));
                WorkerEvent::Delivered(true)
            }
            WorkerAction::Stop => return items,
            _ => panic!("unexpected"),
        };
    }
}

#[test]
fn thread_delivers_the_bytes_of_each_read() {
    let items = deliveries(vec![
        ReadOutcome::Received(2),
        ReadOutcome::Failed(ReadErrorKind::TimedOut, 9),
        ReadOutcome::Received(3),
        ReadOutcome::Failed(ReadErrorKind::WouldBlock, 9),
        ReadOutcome::Received(1),
        ReadOutcome::Received(0),
        ReadOutcome::Received(4),
    ]);
    assert_eq!(items, vec![Ok(vec![1, 1]), Ok(vec![3, 3, 3]), Ok(vec![5])]);
}

#[test]
fn thread_delivers_one_error_and_last() {
    let items = deliveries(vec![
        ReadOutcome::Failed(ReadErrorKind::TimedOut, 1),
        ReadOutcome::Received(1),
        ReadOutcome::Failed(ReadErrorKind::Other, 2),
        ReadOutcome::Received(1),
        ReadOutcome::Failed(ReadErrorKind::Other, 3),
    ]);
    assert_eq!(items, vec![Ok(vec![2]), Err(2)]);
}

#[test]
fn chunk_is_the_start_of_the_buffer() {
    let mut reader = reader();
    for (i, b) in reader.buffer().iter_mut().enumerate() {
        *b = i as u8;
    }
    assert_eq!(reader.chunk(0), &[] as &[u8]);
    assert_eq!(reader.chunk(3), &[0, 1, 2]);
    assert_eq!(reader.chunk(16384).len(), 16384);
}

#[test]
fn dropped_receiver_ends_the_thread() {
    let (worker, _) = take(polling(), no_command());
    let (worker, _) = take(worker, WorkerEvent::Read(ReadOutcome::Received(2)));
    let (_, action) = take(worker, WorkerEvent::Delivered(false));
    assert!(matches!(action, WorkerAction::Stop));
}

fn handle() -> AsyncRtlTcpReader {
    let info = RtlTcpDongleInfo {
        tuner_type: TunerType::E4000,
        gain_count: 14,
    };
    match AsyncRtlTcpReader::new(InitReport::Ready(info)) {
        Ok(handle) => handle,
        Err(error) => panic!("{}", error.message()),
    }
}

#[test]
fn async_reader_from_report() {
    assert_eq!(handle().dongle_info().tuner_type, TunerType::E4000);
    assert_eq!(handle().dongle_info().gain_count, 14);
    let failed = AsyncRtlTcpReader::new(InitReport::Failed("refused".to_string()));
    assert_eq!(failed.err().unwrap().message(), "Connection failed: refused");
    let lost = AsyncRtlTcpReader::new(InitReport::Lost);
    assert_eq!(
        lost.err().unwrap().message(),
        "Reader thread failed to initialize"
    );
}

#[test]
fn async_reader_commands() {
    let handle = handle();
    assert!(matches!(handle.set_frequency(3), RtlTcpCommand::SetFrequency(3)));
    assert!(matches!(handle.set_sample_rate(4), RtlTcpCommand::SetSampleRate(4)));
    assert!(matches!(
        handle.set_gain(Gain::Manual(5)),
        RtlTcpCommand::SetGain(Gain::Manual(5))
    ));
    assert!(matches!(handle.stop(), RtlTcpCommand::Stop));
    assert!(handle.sent(true).is_ok());
    assert_eq!(
        handle.sent(false).err().unwrap().message(),
        "Reader thread disconnected"
    );
}

#[test]
fn samples_are_pairs_of_bytes() {
    assert_eq!(iq_pairs(&[]), vec![]);
    assert_eq!(iq_pairs(&[1, 2, 3, 4]), vec![(1, 2), (3, 4)]);
    assert_eq!(iq_pairs(&[1, 2, 3]), vec![(1, 2)]);
    assert_eq!(iq_pairs(&[0; 16384]).len(), 8192);
}

#[test]
fn cutting_between_samples_keeps_them() {
    let bytes = [9, 8, 7, 6, 5, 4];
    let mut samples = iq_pairs(&bytes[..2]);
    samples.extend(iq_pairs(&bytes[2..]));
    assert_eq!(samples, iq_pairs(&bytes));
}

#[test]
fn thread_reports_once_and_first() {
    let (worker, action) = Worker::start::<u8>(Ok(&reader()));
    assert!(matches!(action, WorkerAction::ReportReady(_)));
    // Nothing but the end of the report counts yet
    let (worker, action) = take(worker, command(RtlTcpCommand::SetFrequency(1)));
    assert!(matches!(action, WorkerAction::ReportReady(_)));
    let (mut worker, _) = take(worker, WorkerEvent::Done);
    for event in [
        WorkerEvent::Done,
        no_command(),
        WorkerEvent::Done,
        WorkerEvent::Read(ReadOutcome::Received(1)),
        WorkerEvent::Done,
        WorkerEvent::Delivered(false),
        WorkerEvent::Done,
    ] {
        let (next, action) = take(worker, event);
        assert!(!matches!(
            action,
            WorkerAction::ReportReady(_) | WorkerAction::ReportFailure(_)
        ));
        worker = next;
    }
}

#[test]
fn filled_buffer_gives_8k_samples() {
    let mut reader = reader();
    reader.buffer().fill(7);
    let n = reader.buffer().len();
    assert_eq!(iq_pairs(reader.chunk(n)), vec![(7, 7); 8192]);
}
