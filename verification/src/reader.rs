//! Synchronous rtl_tcp I/Q sample reader.

use vstd::prelude::*;
use vstd::slice::slice_subrange;

use crate::commands::{
    configure_device, set_frequency_packet, set_gain_packets, set_sample_rate_packet,
};
use crate::config::{Gain, RtlTcpConfig};
use crate::error::Error;
use crate::handshake::{parse_handshake, RtlTcpDongleInfo};
use crate::protocol::DEFAULT_BUF_SIZE;
use crate::transmission::Transmission;

verus! {

/// Why a read from the server failed
#[derive(Debug, Clone, Copy, PartialEq, Eq, Structural)]
pub enum ReadErrorKind {
    /// The read would block
    WouldBlock,
    /// The read timed out
    TimedOut,
    /// Any other reason
    Other,
}

impl ReadErrorKind {
    /// Whether there was only nothing to read yet.
    pub open spec fn timeout(self) -> bool {
        self == ReadErrorKind::WouldBlock || self == ReadErrorKind::TimedOut
    }

    /// Whether there was only nothing to read yet
    pub fn is_timeout(self) -> (timeout: bool)
        ensures
            timeout == self.timeout(),
            timeout <==> self is WouldBlock || self is TimedOut,
    {
        self == ReadErrorKind::WouldBlock || self == ReadErrorKind::TimedOut
    }
}

/// What came of one read from the server into the buffer; `E` is the transport's error
#[derive(Debug)]
pub enum ReadOutcome<E> {
    /// So many bytes were read; none means that the server closed the connection
    Received(usize),
    /// The read failed
    Failed(ReadErrorKind, E),
}

/// Synchronous rtl_tcp I/Q sample reader
///
/// Holds what is known of a remote dongle and the buffer that its samples are read into.
/// Settings come out as packets to be written.
pub struct RtlTcpReader {
    dongle_info: RtlTcpDongleInfo,
    buf: Box<[u8; DEFAULT_BUF_SIZE]>,
}

/// What a reader stands for: the dongle, and the contents of the buffer.
pub struct ReaderView {
    pub dongle_info: RtlTcpDongleInfo,
    pub buf: Seq<u8>,
}

impl View for RtlTcpReader {
    type V = ReaderView;

    closed spec fn view(&self) -> ReaderView {
        ReaderView { dongle_info: self.dongle_info, buf: self.buf@ }
    }
}

/// A reader of the dongle that a handshake describes, with a buffer of zeros.
pub open spec fn new_reader(handshake: Seq<u8>) -> ReaderView {
    ReaderView {
        dongle_info: crate::handshake::described(handshake),
        buf: Seq::new(DEFAULT_BUF_SIZE as nat, |i: int| 0u8),
    }
}

/// What one read gives to whoever wants samples; `E` is the transport's error.
pub enum ChunkView<E> {
    /// There are no more samples.
    End,
    /// The bytes of some samples, or none yet.
    Bytes(Seq<u8>),
    /// The transport failed.
    Failed(E),
}

/// What a read into the buffer gives. A timeout gives no bytes, but is not the end.
pub open spec fn chunk_of<E>(buf: Seq<u8>, outcome: ReadOutcome<E>) -> ChunkView<E> {
    match outcome {
        ReadOutcome::Received(n) => if n == 0 {
            ChunkView::End
        } else {
            ChunkView::Bytes(buf.take(n as int))
        },
        ReadOutcome::Failed(kind, error) => if kind.timeout() {
            ChunkView::Bytes(Seq::empty())
        } else {
            ChunkView::Failed(error)
        },
    }
}

impl RtlTcpReader {
    /// Create a reader from the handshake of the server, together with the transmission that
    /// configures the device with the provided settings
    pub fn new(config: &RtlTcpConfig, handshake: &[u8; 12]) -> (result: Result<
        (Self, Transmission),
        Error,
    >)
        ensures
            result is Ok <==> crate::handshake::has_magic(handshake@),
            result matches Ok((reader, setup)) ==> reader@ == new_reader(handshake@) && setup@
                == crate::commands::configuration(*config),
            result matches Err(error) ==> error matches Error::Device(message) && message@
                == crate::handshake::invalid_magic_message(handshake@.take(4)),
            result is Ok <==> handshake[0] == 0x52 && handshake[1] == 0x54 && handshake[2] == 0x4C
                && handshake[3] == 0x30,
            result matches Ok((reader, _)) ==> {
                &&& reader@.dongle_info.gain_count == handshake[8] * 0x100_0000 + handshake[9]
                    * 0x1_0000 + handshake[10] * 0x100 + handshake[11]
                &&& reader@.buf.len() == 16 * 1024
                &&& forall|i: int| 0 <= i < reader@.buf.len() ==> #[trigger] reader@.buf[i] == 0
            },
    {
        proof {
            crate::handshake::handshake_fields(handshake@);
        }
        match parse_handshake(handshake) {
            Ok(dongle_info) => {
                let reader = RtlTcpReader { dongle_info, buf: Box::new([0u8; DEFAULT_BUF_SIZE]) };
                assert(reader@.buf =~= new_reader(handshake@).buf);
                Ok((reader, Transmission::new(configure_device(config))))
            },
            Err(error) => Err(error),
        }
    }

    /// Get information about the connected dongle
    pub fn dongle_info(&self) -> (info: &RtlTcpDongleInfo)
        ensures
            *info == self@.dongle_info,
    {
        &self.dongle_info
    }

    /// What to send to change the center frequency
    pub fn set_frequency(&self, freq_hz: u32) -> (transmission: Transmission)
        ensures
            transmission@ == seq![crate::commands::frequency_packet(freq_hz)],
            transmission@.len() == 1,
            transmission@[0].cmd == 0x01,
            transmission@[0].value == freq_hz,
    {
        let packets = vec![set_frequency_packet(freq_hz)];
        assert(packets@ =~= seq![crate::commands::frequency_packet(freq_hz)]);
        Transmission::new(packets)
    }

    /// What to send to change the sample rate
    pub fn set_sample_rate(&self, rate_hz: u32) -> (transmission: Transmission)
        ensures
            transmission@ == seq![crate::commands::sample_rate_packet(rate_hz)],
            transmission@.len() == 1,
            transmission@[0].cmd == 0x02,
            transmission@[0].value == rate_hz,
    {
        let packets = vec![set_sample_rate_packet(rate_hz)];
        assert(packets@ =~= seq![crate::commands::sample_rate_packet(rate_hz)]);
        Transmission::new(packets)
    }

    /// What to send to change the gain
    pub fn set_gain(&self, gain: Gain) -> (transmission: Transmission)
        ensures
            transmission@ == crate::commands::gain_packets(gain),
            match gain {
                Gain::Auto => {
                    &&& transmission@.len() == 2
                    &&& transmission@[0].cmd == 0x03 && transmission@[0].value == 0
                    &&& transmission@[1].cmd == 0x08 && transmission@[1].value == 1
                },
                Gain::Manual(gain_tenths) => {
                    &&& transmission@.len() == 3
                    &&& transmission@[0].cmd == 0x03 && transmission@[0].value == 1
                    &&& transmission@[1].cmd == 0x08 && transmission@[1].value == 0
                    &&& transmission@[2].cmd == 0x04 && transmission@[2].value == gain_tenths
                },
            },
    {
        Transmission::new(set_gain_packets(gain))
    }

    /// The buffer to read into
    pub fn buffer(&mut self) -> (buf: &mut [u8])
        ensures
            buf@ == old(self)@.buf,
            buf@.len() == DEFAULT_BUF_SIZE,
            buf@.len() == 16 * 1024,
            final(buf)@.len() == DEFAULT_BUF_SIZE,
            final(self)@ == (ReaderView { buf: final(buf)@, ..old(self)@ }),
    {
        let buf: &mut [u8; DEFAULT_BUF_SIZE] = &mut *self.buf;
        buf
    }

    /// So many bytes from the start of the buffer
    pub fn chunk(&self, n: usize) -> (bytes: &[u8])
        requires
            n <= DEFAULT_BUF_SIZE,
        ensures
            self@.buf.len() == DEFAULT_BUF_SIZE,
            bytes@ == self@.buf.take(n as int),
            bytes@.len() == n,
            forall|i: int| 0 <= i < n ==> #[trigger] bytes@[i] == self@.buf[i],
    {
        slice_subrange(self.buf.as_slice(), 0, n)
    }

    /// The next chunk of I/Q bytes after a read into the buffer
    ///
    /// `None` once the server has closed the connection. A read that timed out gives an empty
    /// chunk; any other failure is handed on.
    pub fn next<E>(&self, outcome: ReadOutcome<E>) -> (chunk: Option<Result<&[u8], E>>)
        requires
            outcome matches ReadOutcome::Received(n) ==> n <= DEFAULT_BUF_SIZE,
        ensures
            self@.buf.len() == DEFAULT_BUF_SIZE,
            match chunk_of(self@.buf, outcome) {
                ChunkView::End => chunk is None,
                ChunkView::Bytes(expected) => chunk matches Some(Ok(bytes)) && bytes@ == expected,
                ChunkView::Failed(error) => chunk == Some(Err::<&[u8], E>(error)),
            },
            match outcome {
                ReadOutcome::Received(n) => if n == 0 {
                    chunk is None
                } else {
                    chunk matches Some(Ok(bytes)) && bytes@.len() == n && forall|i: int|
                        0 <= i < n ==> #[trigger] bytes@[i] == self@.buf[i]
                },
                ReadOutcome::Failed(ReadErrorKind::Other, error) => chunk == Some(
                    Err::<&[u8], E>(error),
                ),
                ReadOutcome::Failed(_, _) => chunk matches Some(Ok(bytes)) && bytes@.len() == 0,
            },
    {
        match outcome {
            ReadOutcome::Received(n) => {
                if n == 0 {
                    None  // Connection closed

                } else {
                    Some(Ok(self.chunk(n)))
                }
            },
            ReadOutcome::Failed(kind, error) => {
                if kind.is_timeout() {
                    // Timeout - empty, but not the end
                    let none = self.chunk(0);
                    assert(none@ =~= Seq::empty());
                    Some(Ok(none))
                } else {
                    Some(Err(error))
                }
            },
        }
    }
}

/// A read that brought bytes gives as many of them as it brought, from the start of the buffer, in
/// order; one that brought none is the end. A read that would block or timed out gives nothing
/// yet; one that failed otherwise gives its error.
pub proof fn reads_give_what_they_brought<E>(buf: Seq<u8>, outcome: ReadOutcome<E>)
    requires
        outcome matches ReadOutcome::Received(n) ==> n <= buf.len(),
    ensures
        match outcome {
            ReadOutcome::Received(n) => if n == 0 {
                chunk_of(buf, outcome) is End
            } else {
                chunk_of(buf, outcome) matches ChunkView::Bytes(bytes) && bytes.len() == n
                    && forall|i: int| 0 <= i < n ==> #[trigger] bytes[i] == buf[i]
            },
            ReadOutcome::Failed(ReadErrorKind::Other, error) => chunk_of(buf, outcome)
                == ChunkView::Failed(error),
            ReadOutcome::Failed(_, _) => chunk_of(buf, outcome) matches ChunkView::Bytes(bytes)
                && bytes.len() == 0,
        },
{
}

/// A new reader has the gain count of the handshake and 16 KiB of zeros to read into.
pub proof fn new_reader_is_of_the_handshake(handshake: Seq<u8>)
    requires
        handshake.len() == 12,
    ensures
        new_reader(handshake).dongle_info == crate::handshake::described(handshake),
        new_reader(handshake).dongle_info.gain_count == handshake[8] * 0x100_0000 + handshake[9]
            * 0x1_0000 + handshake[10] * 0x100 + handshake[11],
        new_reader(handshake).buf.len() == 16 * 1024,
        forall|i: int| 0 <= i < 16 * 1024 ==> #[trigger] new_reader(handshake).buf[i] == 0,
{
    crate::handshake::handshake_fields(handshake);
}

} // verus!
