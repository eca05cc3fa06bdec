//! The 5-byte packets that carry commands to the server.

use vstd::prelude::*;

use crate::bytes::u32_to_be_bytes;

verus! {

/// A command to the server: what to set, and the value.
#[derive(Debug, Clone, Copy, PartialEq, Eq, Structural)]
pub struct Packet {
    /// Command id
    pub cmd: u8,
    /// Value of the setting
    pub value: u32,
}

impl Packet {
    /// The bytes of the packet: the command id, then the value, most significant byte first.
    pub open spec fn bytes(self) -> Seq<u8> {
        seq![self.cmd] + crate::bytes::be_bytes(self.value)
    }

    /// The bytes to send for the command
    pub fn to_bytes(self) -> (bytes: [u8; 5])
        ensures
            bytes@ == self.bytes(),
            bytes[0] == self.cmd,
            bytes[1] * 0x100_0000 + bytes[2] * 0x1_0000 + bytes[3] * 0x100 + bytes[4]
                == self.value,
    {
        let value = u32_to_be_bytes(self.value);
        let mut packet = [0u8; 5];
        packet[0] = self.cmd;
        packet[1] = value[0];
        packet[2] = value[1];
        packet[3] = value[2];
        packet[4] = value[3];
        assert(packet@ =~= self.bytes());
        packet
    }
}

/// The bytes that a server receives when the packets are sent one after the other.
pub open spec fn stream_of(packets: Seq<Packet>) -> Seq<u8>
    decreases packets.len(),
{
    if packets.len() == 0 {
        Seq::empty()
    } else {
        stream_of(packets.drop_last()) + packets.last().bytes()
    }
}

/// A packet has 5 bytes, and no other packet has the same.
pub proof fn packet_is_determined_by_bytes(a: Packet, b: Packet)
    ensures
        a.bytes().len() == 5,
        a.bytes() == b.bytes() ==> a == b,
{
    if a.bytes() == b.bytes() {
        assert(a.bytes()[0] == a.cmd && b.bytes()[0] == b.cmd);
        assert(a.bytes().skip(1) =~= crate::bytes::be_bytes(a.value));
        assert(b.bytes().skip(1) =~= crate::bytes::be_bytes(b.value));
        crate::bytes::be_value_of_be_bytes(a.value);
        crate::bytes::be_value_of_be_bytes(b.value);
    }
}

/// A stream holds 5 bytes for each packet.
pub proof fn stream_length(packets: Seq<Packet>)
    ensures
        stream_of(packets).len() == 5 * packets.len(),
    decreases packets.len(),
{
    if packets.len() > 0 {
        stream_length(packets.drop_last());
    }
}

/// A stream can be cut into packets in one way only: the bytes determine which packets were
/// sent, and in which order.
pub proof fn stream_determines_packets(a: Seq<Packet>, b: Seq<Packet>)
    requires
        stream_of(a) == stream_of(b),
    ensures
        a == b,
    decreases a.len(),
{
    stream_length(a);
    stream_length(b);
    if a.len() == 0 {
        assert(a =~= b);
    } else {
        let (front_a, front_b) = (stream_of(a.drop_last()), stream_of(b.drop_last()));
        stream_length(a.drop_last());
        stream_length(b.drop_last());
        assert(stream_of(a).take(front_a.len() as int) =~= front_a);
        assert(stream_of(b).take(front_b.len() as int) =~= front_b);
        assert(stream_of(a).skip(front_a.len() as int) =~= a.last().bytes());
        assert(stream_of(b).skip(front_b.len() as int) =~= b.last().bytes());
        stream_determines_packets(a.drop_last(), b.drop_last());
        packet_is_determined_by_bytes(a.last(), b.last());
        assert(a =~= a.drop_last().push(a.last()));
        assert(b =~= b.drop_last().push(b.last()));
    }
}

/// The first byte of a packet is the command id; the other four are the digits of the value in
/// base 256, the first one with the greatest weight.
pub proof fn packet_carries_command_and_value(packet: Packet)
    ensures
        ({
            let b = packet.bytes();
            &&& b.len() == 5
            &&& b[0] == packet.cmd
            &&& b[1] * 0x100_0000 + b[2] * 0x1_0000 + b[3] * 0x100 + b[4] == packet.value
        }),
{
    let b = packet.bytes();
    let v = crate::bytes::be_bytes(packet.value);
    crate::bytes::bytes_are_base_256_digits(packet.value, v);
    assert(b[1] == v[0] && b[2] == v[1] && b[3] == v[2] && b[4] == v[3]);
}

/// In a stream the packets stand one after the other, 5 bytes each, in the order in which they
/// are sent.
pub proof fn stream_holds_packets_in_order(packets: Seq<Packet>, i: int)
    requires
        0 <= i < packets.len(),
    ensures
        stream_of(packets).len() == 5 * packets.len(),
        stream_of(packets).subrange(5 * i, 5 * i + 5) == packets[i].bytes(),
    decreases packets.len(),
{
    let front = packets.drop_last();
    stream_length(packets);
    stream_length(front);
    packet_carries_command_and_value(packets[i]);
    if i < front.len() {
        stream_holds_packets_in_order(front, i);
        assert(stream_of(packets).subrange(5 * i, 5 * i + 5) =~= stream_of(front).subrange(
            5 * i,
            5 * i + 5,
        ));
    } else {
        assert(stream_of(packets).subrange(5 * i, 5 * i + 5) =~= packets.last().bytes());
    }
}

} // verus!
