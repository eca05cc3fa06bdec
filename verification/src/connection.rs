//! Opening a connection: connect, read and validate the handshake, configure the device.

use vstd::prelude::*;

use crate::config::RtlTcpConfig;
use crate::error::Error;
use crate::packet::Packet;
use crate::protocol::CONNECT_TIMEOUT_SECS;
use crate::reader::{ReaderView, RtlTcpReader};
use crate::transmission::{Transmission, TransmissionProgress};

verus! {

/// Timeout of reads while the connection is opened, in seconds
pub const READ_TIMEOUT_SECS: u64 = 30;

/// What to do next to open a connection
#[derive(Debug)]
pub enum ConnectAction {
    /// Connect to the server
    Connect {
        /// Socket address of the server
        address: String,
        /// Time after which to give up
        timeout_secs: u64,
    },
    /// Limit the time of reads, so as not to block forever
    SetReadTimeout {
        /// Time after which a read gives up
        timeout_secs: u64,
    },
    /// Read the 12 bytes of the handshake
    ReadHandshake,
    /// Write one packet
    Write(Packet),
}

/// What came of an action; `E` is the transport's error
#[derive(Debug)]
pub enum ConnectEvent<E> {
    /// The server's address is none; with the reason
    InvalidAddress(String),
    /// The action is done
    Done,
    /// The handshake was read
    Handshake([u8; 12]),
    /// The action failed
    Failed(E),
}

/// Why a connection could not be opened; `E` is the transport's error
#[derive(Debug)]
pub enum ConnectError<E> {
    /// The address or the handshake is not usable
    Client(Error),
    /// The transport failed
    Transport(E),
}

/// How far opening a connection has come
enum Phase {
    Connecting,
    LimitingReads,
    AwaitingHandshake,
    Configuring { reader: RtlTcpReader, setup: Transmission },
}

/// A connection that is being opened
pub struct Connection<'a> {
    config: &'a RtlTcpConfig,
    phase: Phase,
}

/// Where an event has brought the opening of a connection; `E` is the transport's error
pub enum ConnectProgress<'a, E> {
    /// There is more to do
    Pending(Connection<'a>),
    /// The connection is open, and the device configured
    Ready(RtlTcpReader),
    /// The connection could not be opened
    Failed(ConnectError<E>),
}

/// How far opening a connection has come: while the device is configured, with the packets that
/// are still to be written.
pub enum ConnectionView {
    Connecting,
    LimitingReads,
    AwaitingHandshake,
    Configuring { reader: ReaderView, rest: Seq<Packet> },
}

/// Where the opening of a connection stands.
pub enum ProgressView<E> {
    Pending(ConnectionView),
    Ready(ReaderView),
    /// Failed with a message of the client.
    Rejected(Seq<char>),
    /// Failed with an error of the transport.
    Broken(E),
}

impl<'a> Connection<'a> {
    /// The settings of the connection.
    pub closed spec fn config(self) -> RtlTcpConfig {
        *self.config
    }
}

impl<'a> View for Connection<'a> {
    type V = ConnectionView;

    closed spec fn view(&self) -> ConnectionView {
        match self.phase {
            Phase::Connecting => ConnectionView::Connecting,
            Phase::LimitingReads => ConnectionView::LimitingReads,
            Phase::AwaitingHandshake => ConnectionView::AwaitingHandshake,
            Phase::Configuring { reader, setup } => ConnectionView::Configuring {
                reader: reader@,
                rest: setup@,
            },
        }
    }
}

impl<'a, E> ConnectProgress<'a, E> {
    /// Where the opening of the connection stands.
    pub open spec fn stand(self) -> ProgressView<E> {
        match self {
            ConnectProgress::Pending(connection) => ProgressView::Pending(connection@),
            ConnectProgress::Ready(reader) => ProgressView::Ready(reader@),
            ConnectProgress::Failed(ConnectError::Client(Error::Device(message))) =>
                ProgressView::Rejected(message@),
            ConnectProgress::Failed(ConnectError::Transport(error)) => ProgressView::Broken(error),
        }
    }
}

/// Where an event brings a connection that is being opened. A failure of the transport ends the
/// opening; any other event counts only as the answer to the action that was asked for.
pub open spec fn after<E>(
    config: RtlTcpConfig,
    at: ConnectionView,
    event: ConnectEvent<E>,
) -> ProgressView<E> {
    match (at, event) {
        (_, ConnectEvent::Failed(error)) => ProgressView::Broken(error),
        (ConnectionView::Connecting, ConnectEvent::InvalidAddress(reason)) =>
            ProgressView::Rejected("Invalid address: "@ + reason@),
        (ConnectionView::Connecting, ConnectEvent::Done) => ProgressView::Pending(
            ConnectionView::LimitingReads,
        ),
        (ConnectionView::LimitingReads, ConnectEvent::Done) => ProgressView::Pending(
            ConnectionView::AwaitingHandshake,
        ),
        (ConnectionView::AwaitingHandshake, ConnectEvent::Handshake(data)) =>
            if crate::handshake::has_magic(data@) {
                ProgressView::Pending(
                    ConnectionView::Configuring {
                        reader: crate::reader::new_reader(data@),
                        rest: crate::commands::configuration(config),
                    },
                )
            } else {
                ProgressView::Rejected(crate::handshake::invalid_magic_message(data@.take(4)))
            },
        (ConnectionView::Configuring { reader, rest }, ConnectEvent::Done) =>
            if rest.len() <= 1 {
                ProgressView::Ready(reader)
            } else {
                ProgressView::Pending(ConnectionView::Configuring { reader, rest: rest.skip(1) })
            },
        _ => ProgressView::Pending(at),
    }
}

impl<'a> Connection<'a> {
    /// Start to open a connection with the provided settings
    pub fn open(config: &'a RtlTcpConfig) -> (connection: Self)
        ensures
            connection@ == ConnectionView::Connecting,
            connection.config() == *config,
    {
        Connection { config, phase: Phase::Connecting }
    }

    /// What to do next
    pub fn action(&self) -> (action: ConnectAction)
        ensures
            match self@ {
                ConnectionView::Connecting => action matches ConnectAction::Connect {
                    address,
                    timeout_secs,
                } && address@ == self.config().socket_address() && timeout_secs
                    == CONNECT_TIMEOUT_SECS,
                ConnectionView::LimitingReads => action == (ConnectAction::SetReadTimeout {
                    timeout_secs: READ_TIMEOUT_SECS,
                }),
                ConnectionView::AwaitingHandshake => action == ConnectAction::ReadHandshake,
                ConnectionView::Configuring { rest, .. } => rest.len() > 0 && action
                    == ConnectAction::Write(rest[0]),
            },
            action matches ConnectAction::Connect { address, timeout_secs } ==> {
                let n = self.config().host@.len() as int;
                &&& address@.len() > n + 1
                &&& address@.take(n) == self.config().host@
                &&& address@[n] == ':'
                &&& crate::text::is_decimal(address@.skip(n + 1))
                &&& crate::text::digits_value(address@.skip(n + 1)) == self.config().port
                &&& timeout_secs == 10
            },
            action matches ConnectAction::SetReadTimeout { timeout_secs } ==> timeout_secs == 30,
    {
        match &self.phase {
            Phase::Connecting => ConnectAction::Connect {
                address: self.config.address(),
                timeout_secs: CONNECT_TIMEOUT_SECS,
            },
            Phase::LimitingReads => ConnectAction::SetReadTimeout {
                timeout_secs: READ_TIMEOUT_SECS,
            },
            Phase::AwaitingHandshake => ConnectAction::ReadHandshake,
            Phase::Configuring { setup, .. } => ConnectAction::Write(setup.packet()),
        }
    }

    /// Go on with what came of the action
    pub fn step<E>(self, event: ConnectEvent<E>) -> (progress: ConnectProgress<'a, E>)
        ensures
            progress.stand() == after(self.config(), self@, event),
            progress matches ConnectProgress::Pending(connection) ==> connection.config()
                == self.config(),
            match (self@, event) {
                (_, ConnectEvent::Failed(error)) => progress matches ConnectProgress::Failed(
                    ConnectError::Transport(cause),
                ) && cause == error,
                (ConnectionView::Connecting, ConnectEvent::InvalidAddress(reason)) =>
                    progress matches ConnectProgress::Failed(
                    ConnectError::Client(Error::Device(message)),
                ) && message@ == "Invalid address: "@ + reason@,
                (ConnectionView::Connecting, ConnectEvent::Done) =>
                    progress matches ConnectProgress::Pending(connection) && connection@
                    == ConnectionView::LimitingReads,
                (ConnectionView::LimitingReads, ConnectEvent::Done) =>
                    progress matches ConnectProgress::Pending(connection) && connection@
                    == ConnectionView::AwaitingHandshake,
                (ConnectionView::AwaitingHandshake, ConnectEvent::Handshake(data)) =>
                    if data[0] == 0x52 && data[1] == 0x54 && data[2] == 0x4C && data[3] == 0x30 {
                        progress matches ConnectProgress::Pending(connection)
                            && connection@ matches ConnectionView::Configuring { reader, rest }
                            && reader == crate::reader::new_reader(data@) && rest
                            == crate::commands::configuration(self.config())
                    } else {
                        progress matches ConnectProgress::Failed(
                            ConnectError::Client(Error::Device(message)),
                        ) && message@ == crate::handshake::invalid_magic_message(data@.take(4))
                    },
                (ConnectionView::Configuring { reader, rest }, ConnectEvent::Done) =>
                    if rest.len() == 1 {
                        progress matches ConnectProgress::Ready(ready) && ready@ == reader
                    } else {
                        progress matches ConnectProgress::Pending(connection)
                            && connection@ matches ConnectionView::Configuring {
                            reader: same,
                            rest: fewer,
                        } && same == reader && fewer.len() == rest.len() - 1 && forall|i: int|
                            0 <= i < fewer.len() ==> #[trigger] fewer[i] == rest[i + 1]
                    },
                _ => progress matches ConnectProgress::Pending(connection) && connection@
                    == self@,
            },
    {
        proof {
            if let ConnectEvent::Handshake(data) = event {
                crate::handshake::handshake_fields(data@);
            }
        }
        let config = self.config;
        match (self.phase, event) {
            (_, ConnectEvent::Failed(error)) => ConnectProgress::Failed(
                ConnectError::Transport(error),
            ),
            (Phase::Connecting, ConnectEvent::InvalidAddress(reason)) => ConnectProgress::Failed(
                ConnectError::Client(Error::device_with("Invalid address: ", reason.as_str())),
            ),
            (Phase::Connecting, ConnectEvent::Done) => ConnectProgress::Pending(
                Connection { config, phase: Phase::LimitingReads },
            ),
            (Phase::LimitingReads, ConnectEvent::Done) => ConnectProgress::Pending(
                Connection { config, phase: Phase::AwaitingHandshake },
            ),
            (Phase::AwaitingHandshake, ConnectEvent::Handshake(data)) => {
                match RtlTcpReader::new(config, &data) {
                    Ok((reader, setup)) => ConnectProgress::Pending(
                        Connection { config, phase: Phase::Configuring { reader, setup } },
                    ),
                    Err(error) => ConnectProgress::Failed(ConnectError::Client(error)),
                }
            },
            (Phase::Configuring { reader, setup }, ConnectEvent::Done) => {
                match setup.step(Ok(())) {
                    TransmissionProgress::Pending(setup) => ConnectProgress::Pending(
                        Connection { config, phase: Phase::Configuring { reader, setup } },
                    ),
                    TransmissionProgress::Done => ConnectProgress::Ready(reader),
                    TransmissionProgress::Failed(error) => ConnectProgress::Failed(
                        ConnectError::Transport(error),
                    ),
                }
            },
            (phase, _) => ConnectProgress::Pending(Connection { config, phase }),
        }
    }
}

/// Where the opening of a connection stands after a sequence of events.
pub open spec fn opening<E>(config: RtlTcpConfig, events: Seq<ConnectEvent<E>>) -> ProgressView<E>
    decreases events.len(),
{
    if events.len() == 0 {
        ProgressView::Pending(ConnectionView::Connecting)
    } else {
        match opening(config, events.drop_last()) {
            ProgressView::Pending(at) => after(config, at, events.last()),
            end => end,
        }
    }
}

/// The packets that were written while a connection was opened, in order.
pub open spec fn written<E>(config: RtlTcpConfig, events: Seq<ConnectEvent<E>>) -> Seq<Packet>
    decreases events.len(),
{
    if events.len() == 0 {
        Seq::empty()
    } else {
        let before = written(config, events.drop_last());
        match (opening(config, events.drop_last()), events.last()) {
            (
                ProgressView::Pending(ConnectionView::Configuring { rest, .. }),
                ConnectEvent::Done,
            ) => before.push(rest[0]),
            _ => before,
        }
    }
}

/// Whether a valid handshake was read, and the reader is of the dongle that it describes.
pub open spec fn greeted<E>(events: Seq<ConnectEvent<E>>, reader: ReaderView) -> bool {
    exists|i: int|
        0 <= i < events.len() && (#[trigger] events[i] matches ConnectEvent::Handshake(data)
            && crate::handshake::has_magic(data@) && reader == crate::reader::new_reader(data@))
}

/// Whatever happens, the packets that were written are the first ones of the configuration, in
/// its order, and none was written before a valid handshake was read. A connection that is ready
/// had such a handshake and the whole configuration written; one that was rejected had no
/// packet written; one that broke had not all of them.
pub proof fn nothing_is_written_out_of_turn<E>(
    config: RtlTcpConfig,
    events: Seq<ConnectEvent<E>>,
)
    ensures
        written(config, events).is_prefix_of(crate::commands::configuration(config)),
        written(config, events).len() > 0 ==> exists|reader: ReaderView| greeted(events, reader),
        match opening(config, events) {
            ProgressView::Pending(ConnectionView::Configuring { reader, rest }) => {
                &&& greeted(events, reader)
                &&& written(config, events) + rest == crate::commands::configuration(config)
                &&& rest.len() > 0
            },
            ProgressView::Ready(reader) => {
                &&& greeted(events, reader)
                &&& written(config, events) == crate::commands::configuration(config)
            },
            ProgressView::Broken(_) => written(config, events)
                != crate::commands::configuration(config),
            _ => written(config, events).len() == 0,
        },
    decreases events.len(),
{
    let packets = crate::commands::configuration(config);
    if events.len() > 0 {
        let earlier = events.drop_last();
        nothing_is_written_out_of_turn(config, earlier);
        let before = written(config, earlier);
        assert forall|reader: ReaderView| greeted(earlier, reader) implies greeted(
            events,
            reader,
        ) by {
            let i = choose|i: int|
                0 <= i < earlier.len() && (#[trigger] earlier[i] matches ConnectEvent::Handshake(
                    data,
                ) && crate::handshake::has_magic(data@) && reader == crate::reader::new_reader(
                    data@,
                ));
            assert(events[i] == earlier[i]);
        }
        match opening(config, earlier) {
            ProgressView::Pending(ConnectionView::AwaitingHandshake) => {
                if let ConnectEvent::Handshake(data) = events.last() {
                    if crate::handshake::has_magic(data@) {
                        assert(events[events.len() - 1] == events.last());
                        assert(greeted(events, crate::reader::new_reader(data@)));
                        assert(before + packets =~= packets);
                    }
                }
            },
            ProgressView::Pending(ConnectionView::Configuring { reader, rest }) => {
                assert(packets[before.len() as int] == rest[0]);
                assert(before.push(rest[0]) + rest.skip(1) =~= packets);
                if rest.len() == 1 {
                    assert(before.push(rest[0]) =~= packets);
                }
            },
            _ => {},
        }
    }
}

/// An opening that has ended stays as it is.
pub proof fn end_is_final<E>(
    config: RtlTcpConfig,
    events: Seq<ConnectEvent<E>>,
    more: Seq<ConnectEvent<E>>,
)
    requires
        !(opening(config, events) is Pending),
    ensures
        opening(config, events + more) == opening(config, events),
        written(config, events + more) == written(config, events),
    decreases more.len(),
{
    if more.len() == 0 {
        assert(events + more =~= events);
    } else {
        end_is_final(config, events, more.drop_last());
        assert((events + more).drop_last() =~= events + more.drop_last());
    }
}

/// After a valid handshake, each packet that is written brings the configuration on by one; once
/// all are written, the connection is ready with a reader of the dongle of that handshake.
pub proof fn undisturbed_opening_succeeds<E>(config: RtlTcpConfig, data: [u8; 12], taken: nat)
    requires
        crate::handshake::has_magic(data@),
        taken <= crate::commands::configuration(config).len(),
    ensures
        ({
            let packets = crate::commands::configuration(config);
            let reader = crate::reader::new_reader(data@);
            let greeting = seq![
                ConnectEvent::<E>::Done,
                ConnectEvent::Done,
                ConnectEvent::Handshake(data),
            ];
            let events = greeting + Seq::new(taken, |i: int| ConnectEvent::<E>::Done);
            &&& written(config, events) == packets.take(taken as int)
            &&& opening(config, events) == if taken == packets.len() {
                ProgressView::<E>::Ready(reader)
            } else {
                ProgressView::Pending(
                    ConnectionView::Configuring { reader, rest: packets.skip(taken as int) },
                )
            }
        }),
    decreases taken,
{
    let packets = crate::commands::configuration(config);
    let reader = crate::reader::new_reader(data@);
    let greeting = seq![
        ConnectEvent::<E>::Done,
        ConnectEvent::Done,
        ConnectEvent::Handshake(data),
    ];
    let events = greeting + Seq::new(taken, |i: int| ConnectEvent::<E>::Done);
    if taken == 0 {
        assert(events =~= greeting);
        let two = greeting.drop_last();
        let one = two.drop_last();
        let none = one.drop_last();
        assert(opening(config, none) == ProgressView::<E>::Pending(ConnectionView::Connecting));
        assert(opening(config, one) == ProgressView::<E>::Pending(ConnectionView::LimitingReads));
        assert(opening(config, two) == ProgressView::<E>::Pending(
            ConnectionView::AwaitingHandshake,
        ));
        assert(written(config, none) =~= Seq::empty());
        assert(written(config, one) =~= Seq::empty());
        assert(written(config, two) =~= Seq::empty());
        assert(written(config, greeting) =~= packets.take(0));
        assert(packets.skip(0) =~= packets);
    } else {
        let fewer = (taken - 1) as nat;
        undisturbed_opening_succeeds::<E>(config, data, fewer);
        assert(events.drop_last() =~= greeting + Seq::new(
            fewer,
            |i: int| ConnectEvent::<E>::Done,
        ));
        assert(packets.skip(fewer as int).skip(1) =~= packets.skip(taken as int));
        assert(packets.take(fewer as int).push(packets[fewer as int]) =~= packets.take(
            taken as int,
        ));
    }
}

/// Whether none of the first `n` events is a failure of the transport.
pub open spec fn undisturbed<E>(events: Seq<ConnectEvent<E>>, n: int) -> bool {
    forall|i: int| 0 <= i < n ==> !(#[trigger] events[i] is Failed)
}

/// Whether an event is why a connection is rejected with the given message: an invalid address,
/// or a handshake with other than the magic bytes.
pub open spec fn rejects<E>(event: ConnectEvent<E>, message: Seq<char>) -> bool {
    match event {
        ConnectEvent::InvalidAddress(reason) => message == "Invalid address: "@ + reason@,
        ConnectEvent::Handshake(data) => !crate::handshake::has_magic(data@) && message
            == crate::handshake::invalid_magic_message(data@.take(4)),
        _ => false,
    }
}

/// An opening that broke did so with the first failure of the transport, and with its error. One
/// that is pending met no failure; one that was rejected, or is ready, met none before.
pub proof fn first_failure_ends_the_opening<E>(
    config: RtlTcpConfig,
    events: Seq<ConnectEvent<E>>,
)
    ensures
        match opening(config, events) {
            ProgressView::Pending(_) => undisturbed(events, events.len() as int),
            ProgressView::Ready(_) => exists|n: int|
                {
                    &&& 0 <= n <= events.len()
                    &&& undisturbed(events, n)
                    &&& opening(config, #[trigger] events.take(n)) == opening(config, events)
                },
            ProgressView::Rejected(message) => exists|i: int|
                {
                    &&& 0 <= i < events.len()
                    &&& undisturbed(events, i)
                    &&& rejects(#[trigger] events[i], message)
                },
            ProgressView::Broken(error) => exists|i: int|
                {
                    &&& 0 <= i < events.len()
                    &&& undisturbed(events, i)
                    &&& #[trigger] events[i] == ConnectEvent::Failed(error)
                },
        },
    decreases events.len(),
{
    if events.len() > 0 {
        let earlier = events.drop_last();
        first_failure_ends_the_opening(config, earlier);
        assert(forall|i: int| 0 <= i < earlier.len() ==> earlier[i] == events[i]);
        assert(events[events.len() - 1] == events.last());
        match opening(config, earlier) {
            ProgressView::Pending(_) => {
                assert(undisturbed(events, events.len() - 1));
                if opening(config, events) is Ready {
                    assert(undisturbed(events, events.len() as int));
                    assert(events.take(events.len() as int) =~= events);
                }
            },
            ProgressView::Ready(_) => {
                let n = choose|n: int|
                    {
                        &&& 0 <= n <= earlier.len()
                        &&& undisturbed(earlier, n)
                        &&& opening(config, #[trigger] earlier.take(n)) == opening(config, earlier)
                    };
                assert(events.take(n) =~= earlier.take(n));
                assert(undisturbed(events, n));
            },
            ProgressView::Rejected(message) => {
                let i = choose|i: int|
                    {
                        &&& 0 <= i < earlier.len()
                        &&& undisturbed(earlier, i)
                        &&& rejects(#[trigger] earlier[i], message)
                    };
                assert(undisturbed(events, i) && rejects(events[i], message));
            },
            ProgressView::Broken(error) => {
                let i = choose|i: int|
                    {
                        &&& 0 <= i < earlier.len()
                        &&& undisturbed(earlier, i)
                        &&& #[trigger] earlier[i] == ConnectEvent::Failed(error)
                    };
                assert(undisturbed(events, i) && events[i] == ConnectEvent::Failed(error));
            },
        }
    }
}

/// A failure of the transport while a connection is being opened ends the opening with its error,
/// whatever comes after.
pub proof fn failure_breaks_the_opening<E>(
    config: RtlTcpConfig,
    events: Seq<ConnectEvent<E>>,
    error: E,
    more: Seq<ConnectEvent<E>>,
)
    requires
        opening(config, events) is Pending,
    ensures
        opening(config, events.push(ConnectEvent::Failed(error)) + more) == ProgressView::Broken(
            error,
        ),
        written(config, events.push(ConnectEvent::Failed(error)) + more) == written(config, events),
{
    let failed = events.push(ConnectEvent::Failed(error));
    assert(failed.drop_last() =~= events);
    end_is_final(config, failed, more);
}

/// Whether the action that was asked for at `at` was done by the event at place `i`.
pub open spec fn done_at<E>(
    config: RtlTcpConfig,
    events: Seq<ConnectEvent<E>>,
    i: int,
    at: ConnectionView,
) -> bool {
    &&& 0 <= i < events.len()
    &&& opening(config, events.take(i)) == ProgressView::<E>::Pending(at)
    &&& events[i] is Done
}

/// Whether a valid handshake was read by the event at place `i`, when it was asked for.
pub open spec fn greeted_at<E>(
    config: RtlTcpConfig,
    events: Seq<ConnectEvent<E>>,
    i: int,
) -> bool {
    &&& 0 <= i < events.len()
    &&& opening(config, events.take(i)) == ProgressView::<E>::Pending(
        ConnectionView::AwaitingHandshake,
    )
    &&& events[i] matches ConnectEvent::Handshake(data) && data[0] == 0x52 && data[1] == 0x54
        && data[2] == 0x4C && data[3] == 0x30
}

/// No step of the opening is left out: before reads are limited the server was connected to,
/// before the handshake is awaited reads were limited, and before the device is configured, or the
/// connection ready, a valid handshake was read.
pub proof fn opening_goes_through_every_step<E>(
    config: RtlTcpConfig,
    events: Seq<ConnectEvent<E>>,
)
    ensures
        match opening(config, events) {
            ProgressView::Pending(ConnectionView::LimitingReads) => exists|i: int|
                done_at(config, events, i, ConnectionView::Connecting),
            ProgressView::Pending(ConnectionView::AwaitingHandshake) => exists|i: int, j: int|
                i < j && done_at(config, events, i, ConnectionView::Connecting) && done_at(
                    config,
                    events,
                    j,
                    ConnectionView::LimitingReads,
                ),
            ProgressView::Pending(ConnectionView::Configuring { .. })
            | ProgressView::Ready(_) => exists|i: int, j: int, k: int|
                i < j < k && done_at(config, events, i, ConnectionView::Connecting) && done_at(
                    config,
                    events,
                    j,
                    ConnectionView::LimitingReads,
                ) && greeted_at(config, events, k),
            _ => true,
        },
    decreases events.len(),
{
    if events.len() > 0 {
        let earlier = events.drop_last();
        let n = earlier.len() as int;
        opening_goes_through_every_step(config, earlier);
        assert(events.take(n) =~= earlier);
        assert(events[n] == events.last());
        assert forall|i: int, at: ConnectionView| #[trigger]
            done_at(config, earlier, i, at) implies done_at(config, events, i, at) by {
            assert(events.take(i) =~= earlier.take(i));
        }
        assert forall|i: int| #[trigger] greeted_at(config, earlier, i) implies greeted_at(
            config,
            events,
            i,
        ) by {
            assert(events.take(i) =~= earlier.take(i));
        }
        match opening(config, earlier) {
            ProgressView::Pending(at) => {
                if events.last() is Done {
                    assert(done_at(config, events, n, at));
                }
                if let ConnectEvent::Handshake(data) = events.last() {
                    crate::handshake::handshake_fields(data@);
                    if at == ConnectionView::AwaitingHandshake && crate::handshake::has_magic(
                        data@,
                    ) {
                        assert(greeted_at(config, events, n));
                    }
                }
            },
            _ => {},
        }
    }
}

} // verus!
