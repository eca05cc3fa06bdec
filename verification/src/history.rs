//! What a background reader thread does over its whole life.

use vstd::prelude::*;

use crate::commands::RtlTcpCommand;
use crate::handshake::RtlTcpDongleInfo;
use crate::packet::Packet;
use crate::reader::{ChunkView, ReadOutcome};
use crate::worker::{CommandPoll, WorkerAction, WorkerEvent, WorkerView};

verus! {

/// A command that the thread took up, and the packets that it wrote for it.
pub struct Execution {
    pub command: RtlTcpCommand,
    pub packets: Seq<Packet>,
}

/// What a thread has done; `E` is the transport's error.
pub struct History<E> {
    /// What the thread is at.
    pub at: WorkerView,
    /// The reports that it made, in order.
    pub reports: Seq<RtlTcpDongleInfo>,
    /// The commands that it took up, in order.
    pub executions: Seq<Execution>,
    /// How often it looked for a command and went on.
    pub polls: nat,
    /// What came of each read, in order.
    pub reads: Seq<ReadOutcome<E>>,
    /// What it delivered, in order: bytes that were taken, and the error that it ended with.
    pub items: Seq<ChunkView<E>>,
}

/// The history of a thread that has just been started.
pub open spec fn fresh<E>(info: RtlTcpDongleInfo) -> History<E> {
    History {
        at: WorkerView::Reporting(info),
        reports: Seq::empty(),
        executions: Seq::empty(),
        polls: 0,
        reads: Seq::empty(),
        items: Seq::empty(),
    }
}

/// The history after one more event; `bufs` are the contents of the buffer after each read.
pub open spec fn record<E>(
    h: History<E>,
    event: WorkerEvent<E>,
    bufs: Seq<Seq<u8>>,
) -> History<E> {
    let next = History { at: crate::worker::next_phase(h.at, event), ..h };
    match (h.at, event) {
        (WorkerView::Reporting(info), WorkerEvent::Done) => History {
            reports: h.reports.push(info),
            ..next
        },
        (WorkerView::Polling, WorkerEvent::Polled(CommandPoll::Received(command))) =>
            if command is Stop {
                next
            } else {
                let execution = Execution { command, packets: Seq::empty() };
                History { executions: h.executions.push(execution), polls: h.polls + 1, ..next }
            },
        (WorkerView::Polling, WorkerEvent::Polled(CommandPoll::Empty)) => History {
            polls: h.polls + 1,
            ..next
        },
        (WorkerView::Writing { rest }, WorkerEvent::Written(ok)) => if ok {
            let last = h.executions.last();
            let execution = Execution { packets: last.packets.push(rest[0]), ..last };
            History { executions: h.executions.drop_last().push(execution), ..next }
        } else {
            next
        },
        (WorkerView::Reading, WorkerEvent::Read(outcome)) => History {
            reads: h.reads.push(outcome),
            items: match crate::worker::next_action(h.at, event) {
                WorkerAction::DeliverError(error) => h.items.push(ChunkView::Failed(error)),
                _ => h.items,
            },
            ..next
        },
        (WorkerView::Delivering(n), WorkerEvent::Delivered(ok)) => if ok {
            let buf = bufs[h.reads.len() - 1];
            History { items: h.items.push(ChunkView::Bytes(buf.take(n as int))), ..next }
        } else {
            next
        },
        _ => next,
    }
}

/// The history of a thread after a sequence of events; `bufs` are the contents of the buffer
/// after each read.
pub open spec fn history<E>(
    info: RtlTcpDongleInfo,
    events: Seq<WorkerEvent<E>>,
    bufs: Seq<Seq<u8>>,
) -> History<E>
    decreases events.len(),
{
    if events.len() == 0 {
        fresh(info)
    } else {
        record(history(info, events.drop_last(), bufs), events.last(), bufs)
    }
}

/// Whether an execution wrote all packets of its command.
pub open spec fn complete(execution: Execution) -> bool {
    execution.packets == crate::commands::command_packets(execution.command)
}

/// A thread writes nothing but the packets of the commands that it took up, each command after
/// the other, in order, and of each the first ones: all of them, unless a write failed. While it
/// writes, what is left to write completes the last command.
pub proof fn commands_are_carried_out_in_order<E>(
    info: RtlTcpDongleInfo,
    events: Seq<WorkerEvent<E>>,
    bufs: Seq<Seq<u8>>,
)
    ensures
        ({
            let h = history(info, events, bufs);
            &&& forall|i: int|
                0 <= i < h.executions.len() ==> !((#[trigger] h.executions[i]).command is Stop)
                    && h.executions[i].packets.is_prefix_of(
                    crate::commands::command_packets(h.executions[i].command),
                )
            &&& h.at matches WorkerView::Writing { rest } ==> {
                &&& rest.len() > 0
                &&& h.executions.len() > 0
                &&& h.executions.last().packets + rest == crate::commands::command_packets(
                    h.executions.last().command,
                )
            }
            &&& (forall|i: int|
                0 <= i < events.len() ==> #[trigger] events[i] != WorkerEvent::<E>::Written(false))
                ==> forall|i: int|
                0 <= i < h.executions.len() - (if h.at is Writing {
                    1int
                } else {
                    0
                }) ==> complete(#[trigger] h.executions[i])
        }),
    decreases events.len(),
{
    if events.len() > 0 {
        let earlier = events.drop_last();
        commands_are_carried_out_in_order(info, earlier, bufs);
        assert(forall|i: int| 0 <= i < earlier.len() ==> earlier[i] == events[i]);
        assert(events[events.len() - 1] == events.last());
        let before = history(info, earlier, bufs);
        let h = history(info, events, bufs);
        match (before.at, events.last()) {
            (WorkerView::Polling, WorkerEvent::Polled(CommandPoll::Received(command))) => {
                if !(command is Stop) {
                    assert(h.executions.last().packets + crate::commands::command_packets(command)
                        =~= crate::commands::command_packets(command));
                }
            },
            (WorkerView::Writing { rest }, WorkerEvent::Written(ok)) => {
                let last = before.executions.last();
                let packets = crate::commands::command_packets(last.command);
                assert(packets[last.packets.len() as int] == rest[0]);
                if ok {
                    assert(last.packets.push(rest[0]) + rest.skip(1) =~= packets);
                    if rest.len() == 1 {
                        assert(last.packets.push(rest[0]) =~= packets);
                    }
                }
            },
            _ => {},
        }
    }
}

/// Whether a read makes the thread deliver something: it brought bytes, or failed other than by
/// a timeout.
pub open spec fn yields<E>(outcome: ReadOutcome<E>) -> bool {
    match outcome {
        ReadOutcome::Received(n) => n > 0,
        ReadOutcome::Failed(kind, _) => !kind.timeout(),
    }
}

/// Whether a read ends the thread: the server closed the connection, or the read failed other
/// than by a timeout.
pub open spec fn ends<E>(outcome: ReadOutcome<E>) -> bool {
    match outcome {
        ReadOutcome::Received(n) => n == 0,
        ReadOutcome::Failed(kind, _) => !kind.timeout(),
    }
}

/// What the reads give to whoever wants samples, in order; `bufs` are the contents of the buffer
/// after each read.
pub open spec fn chunks_of<E>(
    bufs: Seq<Seq<u8>>,
    reads: Seq<ReadOutcome<E>>,
) -> Seq<ChunkView<E>>
    decreases reads.len(),
{
    if reads.len() == 0 {
        Seq::empty()
    } else {
        let before = chunks_of(bufs, reads.drop_last());
        if yields(reads.last()) {
            before.push(crate::reader::chunk_of(bufs[reads.len() - 1], reads.last()))
        } else {
            before
        }
    }
}

/// What a thread delivers is what its reads give: for each read that brought bytes these bytes,
/// in the order of the reads, none dropped, doubled or changed, and nothing for a timeout or the
/// end of the connection. Only the last bytes can be missing: while they are being delivered, and
/// where the thread ended because nobody took them.
pub proof fn reads_are_delivered_in_order<E>(
    info: RtlTcpDongleInfo,
    events: Seq<WorkerEvent<E>>,
    bufs: Seq<Seq<u8>>,
)
    ensures
        ({
            let h = history(info, events, bufs);
            let all = chunks_of(bufs, h.reads);
            match h.at {
                WorkerView::Delivering(n) => {
                    &&& h.reads.len() > 0
                    &&& h.reads.last() == ReadOutcome::<E>::Received(n)
                    &&& all == h.items.push(
                        ChunkView::Bytes(bufs[h.reads.len() - 1].take(n as int)),
                    )
                },
                WorkerView::Stopped => all == h.items || {
                    &&& all.len() > 0
                    &&& all.drop_last() == h.items
                    &&& exists|i: int|
                        0 <= i < events.len() && #[trigger] events[i] == WorkerEvent::<
                            E,
                        >::Delivered(false)
                },
                _ => all == h.items,
            }
        }),
    decreases events.len(),
{
    if events.len() > 0 {
        let earlier = events.drop_last();
        reads_are_delivered_in_order(info, earlier, bufs);
        assert(forall|i: int| 0 <= i < earlier.len() ==> earlier[i] == events[i]);
        assert(events[events.len() - 1] == events.last());
        let before = history(info, earlier, bufs);
        match (before.at, events.last()) {
            (WorkerView::Reading, WorkerEvent::Read(outcome)) => {
                assert(before.reads.push(outcome).drop_last() =~= before.reads);
            },
            (WorkerView::Delivering(n), WorkerEvent::Delivered(ok)) => {
                let item = ChunkView::<E>::Bytes(bufs[before.reads.len() - 1].take(n as int));
                assert(before.items.push(item).drop_last() =~= before.items);
            },
            _ => {},
        }
    }
}

/// As long as everything delivered is taken, a thread that is not just delivering has delivered
/// exactly what its reads give.
pub proof fn taken_deliveries_are_what_the_reads_give<E>(
    info: RtlTcpDongleInfo,
    events: Seq<WorkerEvent<E>>,
    bufs: Seq<Seq<u8>>,
)
    requires
        forall|i: int|
            0 <= i < events.len() ==> #[trigger] events[i] != WorkerEvent::<E>::Delivered(false),
        !(history(info, events, bufs).at is Delivering),
    ensures
        history(info, events, bufs).items == chunks_of(bufs, history(info, events, bufs).reads),
{
    reads_are_delivered_in_order(info, events, bufs);
}

/// A thread delivers at most one error. It comes last, after which the thread has ended, and it
/// is that of the first read that failed other than by a timeout; where a read failed so, its
/// error is delivered. No read follows one that ends the thread.
pub proof fn error_comes_last<E>(
    info: RtlTcpDongleInfo,
    events: Seq<WorkerEvent<E>>,
    bufs: Seq<Seq<u8>>,
)
    ensures
        ({
            let h = history(info, events, bufs);
            &&& forall|i: int| 0 <= i < h.reads.len() - 1 ==> !ends(#[trigger] h.reads[i])
            &&& forall|i: int| 0 <= i < h.items.len() - 1 ==> (#[trigger] h.items[i]) is Bytes
            &&& h.items.len() > 0 ==> match h.items.last() {
                ChunkView::End => false,
                ChunkView::Bytes(_) => true,
                ChunkView::Failed(error) => {
                    &&& h.reads.len() > 0
                    &&& h.reads.last() matches ReadOutcome::Failed(kind, cause) && !kind.timeout()
                        && cause == error
                },
            }
            &&& h.reads.len() > 0 && ends(h.reads.last()) ==> {
                &&& h.at is Stopped
                &&& h.reads.last() matches ReadOutcome::Failed(_, error) ==> h.items.len() > 0
                    && h.items.last() == ChunkView::Failed(error)
            }
        }),
    decreases events.len(),
{
    if events.len() > 0 {
        let earlier = events.drop_last();
        error_comes_last(info, earlier, bufs);
        let before = history(info, earlier, bufs);
        let h = history(info, events, bufs);
        assert(h.reads.len() > 0 && h.reads.len() == before.reads.len() + 1 ==> h.reads.drop_last()
            =~= before.reads);
        assert(h.items.len() == before.items.len() + 1 ==> h.items.drop_last() =~= before.items);
    }
}

/// Commands cannot keep a thread from reading, nor reads from taking commands: looks for
/// commands and reads take turns.
pub proof fn polls_and_reads_take_turns<E>(
    info: RtlTcpDongleInfo,
    events: Seq<WorkerEvent<E>>,
    bufs: Seq<Seq<u8>>,
)
    ensures
        ({
            let h = history(info, events, bufs);
            match h.at {
                WorkerView::Writing { .. } | WorkerView::Reading => h.polls == h.reads.len() + 1,
                _ => h.polls == h.reads.len(),
            }
        }),
    decreases events.len(),
{
    if events.len() > 0 {
        polls_and_reads_take_turns(info, events.drop_last(), bufs);
    }
}

/// A thread that has ended does nothing more.
pub proof fn stop_is_final<E>(
    info: RtlTcpDongleInfo,
    events: Seq<WorkerEvent<E>>,
    more: Seq<WorkerEvent<E>>,
    bufs: Seq<Seq<u8>>,
)
    requires
        history(info, events, bufs).at is Stopped,
    ensures
        history(info, events + more, bufs) == history(info, events, bufs),
    decreases more.len(),
{
    if more.len() == 0 {
        assert(events + more =~= events);
    } else {
        stop_is_final(info, events, more.drop_last(), bufs);
        assert((events + more).drop_last() =~= events + more.drop_last());
    }
}

/// A thread that looks for a command and finds a stop, or that none can come any more, ends at
/// once: it neither writes nor reads.
pub proof fn stop_takes_effect_at_once<E>(
    info: RtlTcpDongleInfo,
    events: Seq<WorkerEvent<E>>,
    poll: CommandPoll,
    bufs: Seq<Seq<u8>>,
)
    requires
        history(info, events, bufs).at is Polling,
        poll is Disconnected || poll == CommandPoll::Received(RtlTcpCommand::Stop),
    ensures
        history(info, events.push(WorkerEvent::<E>::Polled(poll)), bufs) == (History {
            at: WorkerView::Stopped,
            ..history(info, events, bufs)
        }),
{
    assert(events.push(WorkerEvent::<E>::Polled(poll)).drop_last() =~= events);
}

/// A round without a command whose read times out writes and delivers nothing, and leaves the
/// thread ready for the next round.
pub proof fn timeouts_change_nothing<E>(
    info: RtlTcpDongleInfo,
    events: Seq<WorkerEvent<E>>,
    outcome: ReadOutcome<E>,
    bufs: Seq<Seq<u8>>,
)
    requires
        history(info, events, bufs).at is Polling,
        outcome matches ReadOutcome::Failed(kind, _) && kind.timeout(),
    ensures
        ({
            let h = history(info, events, bufs);
            let round = events.push(WorkerEvent::Polled(CommandPoll::Empty)).push(
                WorkerEvent::Read(outcome),
            );
            history(info, round, bufs) == (History {
                polls: h.polls + 1,
                reads: h.reads.push(outcome),
                ..h
            })
        }),
{
    let polled = events.push(WorkerEvent::Polled(CommandPoll::Empty));
    let round = polled.push(WorkerEvent::Read(outcome));
    assert(polled.drop_last() =~= events);
    assert(round.drop_last() =~= polled);
    assert(history(info, polled, bufs).at is Reading);
}

/// A command that a thread takes up is written packet by packet; once the server has taken all
/// of its packets, exactly those of the command have been written, and the thread reads on.
pub proof fn undisturbed_command_is_written_whole<E>(
    info: RtlTcpDongleInfo,
    events: Seq<WorkerEvent<E>>,
    command: RtlTcpCommand,
    taken: nat,
    bufs: Seq<Seq<u8>>,
)
    requires
        history(info, events, bufs).at is Polling,
        !(command is Stop),
        taken <= crate::commands::command_packets(command).len(),
    ensures
        ({
            let packets = crate::commands::command_packets(command);
            let received = events.push(WorkerEvent::Polled(CommandPoll::Received(command)));
            let h = history(info, events, bufs);
            let execution = Execution { command, packets: packets.take(taken as int) };
            history(
                info,
                received + Seq::new(taken, |i: int| WorkerEvent::<E>::Written(true)),
                bufs,
            ) == (History {
                at: if taken == packets.len() {
                    WorkerView::Reading
                } else {
                    WorkerView::Writing { rest: packets.skip(taken as int) }
                },
                executions: h.executions.push(execution),
                polls: h.polls + 1,
                ..h
            })
        }),
    decreases taken,
{
    let packets = crate::commands::command_packets(command);
    let received = events.push(WorkerEvent::<E>::Polled(CommandPoll::Received(command)));
    let all = received + Seq::new(taken, |i: int| WorkerEvent::<E>::Written(true));
    let h = history(info, events, bufs);
    if taken == 0 {
        assert(all =~= received);
        assert(received.drop_last() =~= events);
        assert(packets.skip(0) =~= packets);
        assert(packets.take(0) =~= Seq::empty());
    } else {
        let fewer = (taken - 1) as nat;
        undisturbed_command_is_written_whole(info, events, command, fewer, bufs);
        assert(all.drop_last() =~= received + Seq::new(
            fewer,
            |i: int| WorkerEvent::<E>::Written(true),
        ));
        assert(packets.skip(fewer as int).skip(1) =~= packets.skip(taken as int));
        assert(packets.take(fewer as int).push(packets[fewer as int]) =~= packets.take(
            taken as int,
        ));
        let before = Execution { command, packets: packets.take(fewer as int) };
        assert(h.executions.push(before).drop_last() =~= h.executions);
    }
}

/// A thread whose connection is open reports the dongle first and exactly once: until then it has
/// looked for no command, written, read and delivered nothing, and afterwards no event makes it
/// report again. It never reports a failure.
pub proof fn report_comes_first_and_once<E>(
    info: RtlTcpDongleInfo,
    events: Seq<WorkerEvent<E>>,
    bufs: Seq<Seq<u8>>,
    event: WorkerEvent<E>,
)
    ensures
        ({
            let h = history(info, events, bufs);
            match h.at {
                WorkerView::Reporting(reported) => {
                    &&& reported == info
                    &&& h == fresh::<E>(info)
                },
                _ => {
                    &&& h.reports == seq![info]
                    &&& !(crate::worker::next_phase(h.at, event) is Reporting)
                    &&& !(crate::worker::next_action(h.at, event) is ReportReady)
                },
            }
        }),
        !(crate::worker::next_action(history(info, events, bufs).at, event) is ReportFailure),
    decreases events.len(),
{
    if events.len() > 0 {
        let earlier = events.drop_last();
        report_comes_first_and_once(info, earlier, bufs, event);
        let before = history(info, earlier, bufs);
        if before.at is Reporting {
            assert(before.reports.push(info) =~= seq![info]);
        }
    }
}

/// A thread that has ended, as one does that has reported that its connection could not be
/// opened, reports nothing more, and does nothing else.
pub proof fn ended_thread_only_stops<E>(event: WorkerEvent<E>)
    ensures
        crate::worker::next_phase(WorkerView::Stopped, event) == WorkerView::Stopped,
        crate::worker::next_action(WorkerView::Stopped, event) == WorkerAction::<E>::Stop,
{
}

} // verus!
