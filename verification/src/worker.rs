//! The background thread that reads samples and carries out commands.

use vstd::prelude::*;

use crate::commands::{
    set_frequency_packet, set_gain_packets, set_sample_rate_packet, RtlTcpCommand,
};
use crate::config::Gain;
use crate::connection::ConnectError;
use crate::handshake::RtlTcpDongleInfo;
use crate::packet::Packet;
use crate::reader::{ChunkView, ReadErrorKind, ReadOutcome, RtlTcpReader};
use crate::transmission::{Transmission, TransmissionProgress};

verus! {

/// Timeout of reads in the thread, in milliseconds: commands are looked for at least that often
pub const POLL_TIMEOUT_MILLIS: u64 = 100;

/// What the thread does next; `E` is the transport's error
#[derive(Debug)]
pub enum WorkerAction<E> {
    /// Report that the connection is open
    ReportReady(RtlTcpDongleInfo),
    /// Report that the connection could not be opened, and end
    ReportFailure(ConnectError<E>),
    /// Limit the time of reads
    SetReadTimeout {
        /// Time after which a read gives up
        timeout_millis: u64,
    },
    /// Look for a command, without waiting
    PollCommand,
    /// Write one packet
    Write(Packet),
    /// Read into the buffer
    Read,
    /// Deliver so many bytes from the start of the buffer
    Deliver(usize),
    /// Deliver an error, and end
    DeliverError(E),
    /// End
    Stop,
}

/// What came of a look for a command
#[derive(Debug)]
pub enum CommandPoll {
    /// There was a command
    Received(RtlTcpCommand),
    /// There was none
    Empty,
    /// There was none, and there will be none
    Disconnected,
}

/// What came of an action; `E` is the transport's error
#[derive(Debug)]
pub enum WorkerEvent<E> {
    /// The report was made or the time of reads limited; whether it worked does not matter
    Done,
    /// A command was looked for
    Polled(CommandPoll),
    /// A packet was written, or could not be
    Written(bool),
    /// A read came back
    Read(ReadOutcome<E>),
    /// Bytes were delivered, or could not be
    Delivered(bool),
}

/// What the thread is at
enum Phase {
    Reporting(RtlTcpDongleInfo),
    LimitingReads,
    Polling,
    Writing(Transmission),
    Reading,
    Delivering(usize),
    Stopped,
}

/// The state of the background reader thread
pub struct Worker {
    phase: Phase,
}

/// What the thread is at: while a command is carried out, with the packets that are still to be
/// written.
pub enum WorkerView {
    Reporting(RtlTcpDongleInfo),
    LimitingReads,
    Polling,
    Writing { rest: Seq<Packet> },
    Reading,
    Delivering(usize),
    Stopped,
}

impl View for Worker {
    type V = WorkerView;

    closed spec fn view(&self) -> WorkerView {
        match self.phase {
            Phase::Reporting(info) => WorkerView::Reporting(info),
            Phase::LimitingReads => WorkerView::LimitingReads,
            Phase::Polling => WorkerView::Polling,
            Phase::Writing(transmission) => WorkerView::Writing { rest: transmission@ },
            Phase::Reading => WorkerView::Reading,
            Phase::Delivering(n) => WorkerView::Delivering(n),
            Phase::Stopped => WorkerView::Stopped,
        }
    }
}

/// What the thread is at after an event. An event counts only as the answer to the action that
/// was asked for. After a command, and after a look that found none, comes one read; after a read
/// comes the next look for a command, unless the thread ends. It ends on a stop, when no command
/// can come any more, when the server has closed the connection, when a read fails other than
/// by a timeout, and when nobody takes the samples. A write that fails ends the command only.
pub open spec fn next_phase<E>(at: WorkerView, event: WorkerEvent<E>) -> WorkerView {
    match (at, event) {
        (WorkerView::Reporting(_), WorkerEvent::Done) => WorkerView::LimitingReads,
        (WorkerView::LimitingReads, WorkerEvent::Done) => WorkerView::Polling,
        (WorkerView::Polling, WorkerEvent::Polled(CommandPoll::Received(command))) =>
            if command is Stop {
                WorkerView::Stopped
            } else {
                WorkerView::Writing { rest: crate::commands::command_packets(command) }
            },
        (WorkerView::Polling, WorkerEvent::Polled(CommandPoll::Empty)) => WorkerView::Reading,
        (WorkerView::Polling, WorkerEvent::Polled(CommandPoll::Disconnected)) =>
            WorkerView::Stopped,
        (WorkerView::Writing { rest }, WorkerEvent::Written(ok)) => if ok && rest.len() > 1 {
            WorkerView::Writing { rest: rest.skip(1) }
        } else {
            WorkerView::Reading
        },
        (WorkerView::Reading, WorkerEvent::Read(ReadOutcome::Received(n))) => if n == 0 {
            WorkerView::Stopped
        } else {
            WorkerView::Delivering(n)
        },
        (WorkerView::Reading, WorkerEvent::Read(ReadOutcome::Failed(kind, _))) =>
            if kind.timeout() {
                WorkerView::Polling
            } else {
                WorkerView::Stopped
            },
        (WorkerView::Delivering(_), WorkerEvent::Delivered(ok)) => if ok {
            WorkerView::Polling
        } else {
            WorkerView::Stopped
        },
        _ => at,
    }
}

/// The action that goes with what the thread is at.
pub open spec fn action_of<E>(at: WorkerView) -> WorkerAction<E> {
    match at {
        WorkerView::Reporting(info) => WorkerAction::ReportReady(info),
        WorkerView::LimitingReads => WorkerAction::SetReadTimeout {
            timeout_millis: POLL_TIMEOUT_MILLIS,
        },
        WorkerView::Polling => WorkerAction::PollCommand,
        WorkerView::Writing { rest } => WorkerAction::Write(rest[0]),
        WorkerView::Reading => WorkerAction::Read,
        WorkerView::Delivering(n) => WorkerAction::Deliver(n),
        WorkerView::Stopped => WorkerAction::Stop,
    }
}

/// The action after an event: a read that failed other than by a timeout has its error
/// delivered; else it is the one that goes with what the thread then is at.
pub open spec fn next_action<E>(at: WorkerView, event: WorkerEvent<E>) -> WorkerAction<E> {
    match (at, event) {
        (WorkerView::Reading, WorkerEvent::Read(ReadOutcome::Failed(kind, error))) =>
            if kind.timeout() {
                WorkerAction::PollCommand
            } else {
                WorkerAction::DeliverError(error)
            },
        _ => action_of(next_phase(at, event)),
    }
}

impl Worker {
    /// Start the thread with what came of opening the connection
    pub fn start<E>(opened: Result<&RtlTcpReader, ConnectError<E>>) -> (result: (
        Self,
        WorkerAction<E>,
    ))
        ensures
            match opened {
                Ok(reader) => {
                    &&& result.0@ == WorkerView::Reporting(reader@.dongle_info)
                    &&& result.1 == WorkerAction::<E>::ReportReady(reader@.dongle_info)
                },
                Err(error) => {
                    &&& result.0@ == WorkerView::Stopped
                    &&& result.1 == WorkerAction::ReportFailure(error)
                },
            },
    {
        match opened {
            Ok(reader) => Worker::enter(Phase::Reporting(reader.dongle_info().clone())),
            Err(error) => (Worker { phase: Phase::Stopped }, WorkerAction::ReportFailure(error)),
        }
    }

    /// The thread in a phase, with the action that goes with it
    fn enter<E>(phase: Phase) -> (result: (Self, WorkerAction<E>))
        ensures
            result.0 == (Worker { phase }),
            result.1 == action_of::<E>(result.0@),
            result.0@ matches WorkerView::Writing { rest } ==> rest.len() > 0,
    {
        let action = match &phase {
            Phase::Reporting(info) => WorkerAction::ReportReady(info.clone()),
            Phase::LimitingReads => WorkerAction::SetReadTimeout {
                timeout_millis: POLL_TIMEOUT_MILLIS,
            },
            Phase::Polling => WorkerAction::PollCommand,
            Phase::Writing(transmission) => WorkerAction::Write(transmission.packet()),
            Phase::Reading => WorkerAction::Read,
            Phase::Delivering(n) => WorkerAction::Deliver(*n),
            Phase::Stopped => WorkerAction::Stop,
        };
        (Worker { phase }, action)
    }

    /// Go on with what came of the action
    pub fn step<E>(self, event: WorkerEvent<E>) -> (result: (Self, WorkerAction<E>))
        ensures
            result.0@ == next_phase(self@, event),
            result.1 == next_action(self@, event),
            match (self@, event) {
                (WorkerView::Reporting(_), WorkerEvent::Done) => result.0@ is LimitingReads,
                (WorkerView::LimitingReads, WorkerEvent::Done) => result.0@ is Polling,
                (WorkerView::Polling, WorkerEvent::Polled(CommandPoll::Received(command))) =>
                    match command {
                    RtlTcpCommand::SetFrequency(freq_hz) => result.0@ == (WorkerView::Writing {
                        rest: seq![Packet { cmd: 0x01, value: freq_hz }],
                    }),
                    RtlTcpCommand::SetSampleRate(rate_hz) => result.0@ == (WorkerView::Writing {
                        rest: seq![Packet { cmd: 0x02, value: rate_hz }],
                    }),
                    RtlTcpCommand::SetGain(Gain::Auto) => result.0@ == (WorkerView::Writing {
                        rest: seq![Packet { cmd: 0x03, value: 0 }, Packet { cmd: 0x08, value: 1 }],
                    }),
                    RtlTcpCommand::SetGain(Gain::Manual(gain_tenths)) => result.0@
                        == (WorkerView::Writing {
                        rest: seq![
                            Packet { cmd: 0x03, value: 1 },
                            Packet { cmd: 0x08, value: 0 },
                            Packet { cmd: 0x04, value: gain_tenths },
                        ],
                    }),
                    RtlTcpCommand::Stop => result.0@ is Stopped,
                },
                (WorkerView::Polling, WorkerEvent::Polled(CommandPoll::Empty)) => result.0@
                    is Reading,
                (WorkerView::Polling, WorkerEvent::Polled(CommandPoll::Disconnected)) => result.0@
                    is Stopped,
                (WorkerView::Writing { rest }, WorkerEvent::Written(ok)) => if ok && rest.len()
                    > 1 {
                    result.0@ matches WorkerView::Writing { rest: fewer } && fewer.len()
                        == rest.len() - 1 && forall|i: int|
                        0 <= i < fewer.len() ==> #[trigger] fewer[i] == rest[i + 1]
                } else {
                    result.0@ is Reading
                },
                (WorkerView::Reading, WorkerEvent::Read(ReadOutcome::Received(n))) => if n == 0 {
                    result.0@ is Stopped
                } else {
                    result.0@ == WorkerView::Delivering(n)
                },
                (
                    WorkerView::Reading,
                    WorkerEvent::Read(ReadOutcome::Failed(ReadErrorKind::Other, error)),
                ) => result.0@ is Stopped && result.1 == WorkerAction::DeliverError(error),
                (WorkerView::Reading, WorkerEvent::Read(ReadOutcome::Failed(_, _))) => result.0@
                    is Polling,
                (WorkerView::Delivering(_), WorkerEvent::Delivered(ok)) => if ok {
                    result.0@ is Polling
                } else {
                    result.0@ is Stopped
                },
                _ => result.0@ == self@,
            },
            match result.0@ {
                WorkerView::Reporting(info) => result.1 == WorkerAction::<E>::ReportReady(info),
                WorkerView::LimitingReads => result.1 == (WorkerAction::<E>::SetReadTimeout {
                    timeout_millis: 100,
                }),
                WorkerView::Polling => result.1 is PollCommand,
                WorkerView::Writing { rest } => rest.len() > 0 && result.1
                    == WorkerAction::<E>::Write(rest[0]),
                WorkerView::Reading => result.1 is Read,
                WorkerView::Delivering(n) => result.1 == WorkerAction::<E>::Deliver(n),
                WorkerView::Stopped => result.1 is Stop || result.1 is DeliverError,
            },
            result.1 is DeliverError ==> self@ is Reading && event matches WorkerEvent::Read(
                ReadOutcome::Failed(ReadErrorKind::Other, _),
            ),
    {
        let phase = match (self.phase, event) {
            (Phase::Reporting(_), WorkerEvent::Done) => Phase::LimitingReads,
            (Phase::LimitingReads, WorkerEvent::Done) => Phase::Polling,
            (Phase::Polling, WorkerEvent::Polled(CommandPoll::Received(command))) => {
                let packets = match command {
                    RtlTcpCommand::SetFrequency(freq) => vec![set_frequency_packet(freq)],
                    RtlTcpCommand::SetSampleRate(rate) => vec![set_sample_rate_packet(rate)],
                    RtlTcpCommand::SetGain(gain) => set_gain_packets(gain),
                    RtlTcpCommand::Stop => {
                        return Worker::enter(Phase::Stopped);
                    },
                };
                assert(packets@ =~= crate::commands::command_packets(command));
                Phase::Writing(Transmission::new(packets))
            },
            (Phase::Polling, WorkerEvent::Polled(CommandPoll::Empty)) => Phase::Reading,
            (Phase::Polling, WorkerEvent::Polled(CommandPoll::Disconnected)) => Phase::Stopped,
            (Phase::Writing(transmission), WorkerEvent::Written(ok)) => {
                let written: Result<(), ()> = if ok {
                    Ok(())
                } else {
                    Err(())
                };
                match transmission.step(written) {
                    TransmissionProgress::Pending(rest) => Phase::Writing(rest),
                    TransmissionProgress::Done => Phase::Reading,
                    TransmissionProgress::Failed(_) => Phase::Reading,
                }
            },
            (Phase::Reading, WorkerEvent::Read(ReadOutcome::Received(n))) => {
                if n == 0 {
                    Phase::Stopped  // Connection closed

                } else {
                    Phase::Delivering(n)
                }
            },
            (Phase::Reading, WorkerEvent::Read(ReadOutcome::Failed(kind, error))) => {
                if kind.is_timeout() {
                    // Timeout is fine, just continue
                    Phase::Polling
                } else {
                    return (
                        Worker { phase: Phase::Stopped },
                        WorkerAction::DeliverError(error),
                    );
                }
            },
            (Phase::Delivering(_), WorkerEvent::Delivered(ok)) => {
                if ok {
                    Phase::Polling
                } else {
                    Phase::Stopped  // Receiver dropped

                }
            },
            (phase, _) => phase,
        };
        Worker::enter(phase)
    }
}

/// The thread treats a read as the synchronous reader does: it delivers the bytes that the
/// reader yields, ends where the reader ends, and hands on the same errors. The one difference is
/// a timeout, for which the reader yields an empty chunk and the thread delivers nothing.
pub proof fn thread_and_reader_agree<E>(buf: Seq<u8>, outcome: ReadOutcome<E>)
    requires
        outcome matches ReadOutcome::Received(n) ==> n <= buf.len(),
    ensures
        match crate::reader::chunk_of(buf, outcome) {
            ChunkView::End => next_action(WorkerView::Reading, WorkerEvent::Read(outcome))
                == WorkerAction::<E>::Stop,
            ChunkView::Bytes(bytes) => next_action(WorkerView::Reading, WorkerEvent::Read(outcome))
                == if bytes.len() == 0 {
                WorkerAction::<E>::PollCommand
            } else {
                WorkerAction::Deliver(bytes.len() as usize)
            },
            ChunkView::Failed(error) => next_action(
                WorkerView::Reading,
                WorkerEvent::Read(outcome),
            ) == WorkerAction::DeliverError(error),
        },
        crate::reader::chunk_of(buf, outcome) matches ChunkView::Bytes(bytes)
            ==> bytes.is_prefix_of(buf),
{
}

} // verus!
