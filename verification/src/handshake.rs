//! The handshake that the server sends first.

use vstd::prelude::*;

use crate::bytes::u32_from_be_bytes;
use crate::error::Error;
use crate::protocol::MAGIC;
use crate::text::append_byte_list;

verus! {

/// RTL-SDR tuner type from handshake
#[derive(Debug, Clone, Copy, PartialEq, Eq, Structural)]
pub enum TunerType {
    /// Unknown tuner
    Unknown,
    /// Elonics E4000
    E4000,
    /// Fitipower FC0012
    FC0012,
    /// Fitipower FC0013
    FC0013,
    /// FCI FC2580
    FC2580,
    /// Rafael Micro R820T
    R820T,
    /// Rafael Micro R828D
    R828D,
}

impl TunerType {
    /// The number of a tuner type in the handshake; 0 for an unknown tuner.
    pub open spec fn code(self) -> u32 {
        match self {
            TunerType::Unknown => 0,
            TunerType::E4000 => 1,
            TunerType::FC0012 => 2,
            TunerType::FC0013 => 3,
            TunerType::FC2580 => 4,
            TunerType::R820T => 5,
            TunerType::R828D => 6,
        }
    }

    /// The tuner type with the given number, or the unknown one if none has it.
    pub open spec fn numbered(code: int) -> TunerType {
        if exists|tuner: TunerType| #[trigger] tuner.code() == code {
            choose|tuner: TunerType| #[trigger] tuner.code() == code
        } else {
            TunerType::Unknown
        }
    }

    /// Parse tuner type from u32 value
    pub fn from_u32(value: u32) -> (tuner: Self)
        ensures
            tuner == TunerType::numbered(value as int),
            value <= 6 ==> tuner.code() == value,
            value > 6 ==> tuner == TunerType::Unknown,
            value == 0 ==> tuner == TunerType::Unknown,
            value == 1 ==> tuner == TunerType::E4000,
            value == 2 ==> tuner == TunerType::FC0012,
            value == 3 ==> tuner == TunerType::FC0013,
            value == 4 ==> tuner == TunerType::FC2580,
            value == 5 ==> tuner == TunerType::R820T,
            value == 6 ==> tuner == TunerType::R828D,
    {
        proof {
            TunerType::numbered_codes(value as int);
        }
        match value {
            1 => TunerType::E4000,
            2 => TunerType::FC0012,
            3 => TunerType::FC0013,
            4 => TunerType::FC2580,
            5 => TunerType::R820T,
            6 => TunerType::R828D,
            _ => TunerType::Unknown,
        }
    }

    /// The numbers from 0 to 6 are those of the tuner types, one each; any other number gives
    /// the unknown tuner.
    pub proof fn numbered_codes(code: int)
        ensures
            0 <= code <= 6 ==> TunerType::numbered(code).code() == code,
            !(0 <= code <= 6) ==> TunerType::numbered(code) == TunerType::Unknown,
            forall|tuner: TunerType| #[trigger] tuner.code() == code ==> tuner
                == TunerType::numbered(code),
    {
        assert(TunerType::Unknown.code() == 0);
        assert(TunerType::E4000.code() == 1);
        assert(TunerType::FC0012.code() == 2);
        assert(TunerType::FC0013.code() == 3);
        assert(TunerType::FC2580.code() == 4);
        assert(TunerType::R820T.code() == 5);
        assert(TunerType::R828D.code() == 6);
    }

    /// The number that stands for the tuner type in the handshake
    pub fn as_u32(self) -> (value: u32)
        ensures
            value == self.code(),
            value <= 6,
            self == TunerType::Unknown <==> value == 0,
            self == TunerType::E4000 <==> value == 1,
            self == TunerType::FC0012 <==> value == 2,
            self == TunerType::FC0013 <==> value == 3,
            self == TunerType::FC2580 <==> value == 4,
            self == TunerType::R820T <==> value == 5,
            self == TunerType::R828D <==> value == 6,
    {
        match self {
            TunerType::Unknown => 0,
            TunerType::E4000 => 1,
            TunerType::FC0012 => 2,
            TunerType::FC0013 => 3,
            TunerType::FC2580 => 4,
            TunerType::R820T => 5,
            TunerType::R828D => 6,
        }
    }
}

/// Information about the remote RTL-SDR dongle
#[derive(Debug)]
pub struct RtlTcpDongleInfo {
    /// Tuner chip type
    pub tuner_type: TunerType,
    /// Number of available gain values
    pub gain_count: u32,
}

impl Clone for RtlTcpDongleInfo {
    fn clone(&self) -> (copy: Self)
        ensures
            copy == *self,
    {
        RtlTcpDongleInfo { tuner_type: self.tuner_type, gain_count: self.gain_count }
    }
}

/// Whether the data starts with the magic bytes.
pub open spec fn has_magic(data: Seq<u8>) -> bool {
    data.take(4) == MAGIC@
}

/// What a handshake says after its magic bytes: the number of the tuner type in the second four
/// bytes, and the gain count in the last four.
pub open spec fn described(data: Seq<u8>) -> RtlTcpDongleInfo {
    RtlTcpDongleInfo {
        tuner_type: TunerType::numbered(crate::bytes::be_value(data.subrange(4, 8))),
        gain_count: crate::bytes::be_value(data.subrange(8, 12)) as u32,
    }
}

/// The message for a handshake that starts with other bytes than the magic ones.
pub open spec fn invalid_magic_message(start: Seq<u8>) -> Seq<char> {
    "Invalid rtl_tcp magic: expected 'RTL0', got "@ + crate::text::byte_list(start)
}

/// Parse the 12-byte handshake from server
pub fn parse_handshake(data: &[u8; 12]) -> (result: Result<RtlTcpDongleInfo, Error>)
    ensures
        result is Ok <==> has_magic(data@),
        result is Ok <==> data[0] == 0x52 && data[1] == 0x54 && data[2] == 0x4C && data[3] == 0x30,
        result matches Ok(info) ==> info == described(data@),
        result matches Ok(info) ==> {
            let code = data[4] * 0x100_0000 + data[5] * 0x1_0000 + data[6] * 0x100 + data[7];
            &&& info.tuner_type == TunerType::E4000 <==> code == 1
            &&& info.tuner_type == TunerType::FC0012 <==> code == 2
            &&& info.tuner_type == TunerType::FC0013 <==> code == 3
            &&& info.tuner_type == TunerType::FC2580 <==> code == 4
            &&& info.tuner_type == TunerType::R820T <==> code == 5
            &&& info.tuner_type == TunerType::R828D <==> code == 6
            &&& info.tuner_type == TunerType::Unknown <==> code == 0 || code > 6
            &&& info.gain_count == data[8] * 0x100_0000 + data[9] * 0x1_0000 + data[10] * 0x100
                + data[11]
        },
        result matches Err(error) ==> error matches Error::Device(message) && message@
            == invalid_magic_message(data@.take(4)),
        result matches Err(error) ==> error matches Error::Device(message) && message@
            == "Invalid rtl_tcp magic: expected 'RTL0', got "@ + "["@ + crate::text::decimal(
            data[0] as nat,
        ) + ", "@ + crate::text::decimal(data[1] as nat) + ", "@ + crate::text::decimal(
            data[2] as nat,
        ) + ", "@ + crate::text::decimal(data[3] as nat) + "]"@,
{
    proof {
        handshake_fields(data@);
        invalid_magic_message_lists_the_bytes(data@.take(4));
    }
    let start: [u8; 4] = [data[0], data[1], data[2], data[3]];
    assert(start@ =~= data@.take(4));
    if start[0] != MAGIC[0] || start[1] != MAGIC[1] || start[2] != MAGIC[2] || start[3]
        != MAGIC[3] {
        let mut message = "Invalid rtl_tcp magic: expected 'RTL0', got ".to_owned();
        append_byte_list(&mut message, start.as_slice());
        return Err(Error::device(message));
    }
    assert(start@ =~= MAGIC@);

    let tuner: [u8; 4] = [data[4], data[5], data[6], data[7]];
    let gains: [u8; 4] = [data[8], data[9], data[10], data[11]];
    assert(tuner@ =~= data@.subrange(4, 8));
    assert(gains@ =~= data@.subrange(8, 12));
    let tuner_type = u32_from_be_bytes(tuner);
    let gain_count = u32_from_be_bytes(gains);

    Ok(RtlTcpDongleInfo { tuner_type: TunerType::from_u32(tuner_type), gain_count })
}

/// The handshake of a server with the given tuner number and gain count.
pub open spec fn handshake_of(tuner: u32, gain_count: u32) -> Seq<u8> {
    MAGIC@ + crate::bytes::be_bytes(tuner) + crate::bytes::be_bytes(gain_count)
}

/// Reading back the number of a tuner type gives the tuner type.
pub proof fn tuner_round_trip(tuner: TunerType)
    ensures
        TunerType::numbered(tuner.code() as int) == tuner,
{
    TunerType::numbered_codes(tuner.code() as int);
}

/// The magic bytes, a tuner number and a gain count make an accepted handshake, which
/// describes the tuner with that number (the unknown one where there is none) and that count.
pub proof fn handshake_round_trip(tuner: u32, gain_count: u32)
    ensures
        handshake_of(tuner, gain_count).len() == 12,
        has_magic(handshake_of(tuner, gain_count)),
        described(handshake_of(tuner, gain_count)) == (RtlTcpDongleInfo {
            tuner_type: TunerType::numbered(tuner as int),
            gain_count,
        }),
{
    let data = handshake_of(tuner, gain_count);
    assert(data.take(4) =~= MAGIC@);
    assert(data.subrange(4, 8) =~= crate::bytes::be_bytes(tuner));
    assert(data.subrange(8, 12) =~= crate::bytes::be_bytes(gain_count));
    crate::bytes::be_value_of_be_bytes(tuner);
    crate::bytes::be_value_of_be_bytes(gain_count);
}

/// Only the magic bytes, a tuner number and a gain count make an accepted handshake.
pub proof fn accepted_handshake_shape(data: Seq<u8>)
    requires
        data.len() == 12,
        has_magic(data),
    ensures
        exists|tuner: u32, gain_count: u32| data == #[trigger] handshake_of(tuner, gain_count),
{
    let tuner = crate::bytes::be_value(data.subrange(4, 8)) as u32;
    let gain_count = crate::bytes::be_value(data.subrange(8, 12)) as u32;
    crate::bytes::be_bytes_of_be_value(data.subrange(4, 8));
    crate::bytes::be_bytes_of_be_value(data.subrange(8, 12));
    assert(data =~= data.take(4) + data.subrange(4, 8) + data.subrange(8, 12));
    assert(data =~= handshake_of(tuner, gain_count));
}

/// The tuner types by their numbers.
pub proof fn tuners_by_number(code: int)
    ensures
        TunerType::numbered(code) == TunerType::E4000 <==> code == 1,
        TunerType::numbered(code) == TunerType::FC0012 <==> code == 2,
        TunerType::numbered(code) == TunerType::FC0013 <==> code == 3,
        TunerType::numbered(code) == TunerType::FC2580 <==> code == 4,
        TunerType::numbered(code) == TunerType::R820T <==> code == 5,
        TunerType::numbered(code) == TunerType::R828D <==> code == 6,
        TunerType::numbered(code) == TunerType::Unknown <==> !(1 <= code <= 6),
{
    TunerType::numbered_codes(code);
}

/// A handshake is accepted where it starts with the bytes of "RTL0". The next four bytes are the
/// digits of the tuner's number in base 256, and the last four those of the gain count.
pub proof fn handshake_fields(data: Seq<u8>)
    requires
        data.len() == 12,
    ensures
        has_magic(data) <==> data[0] == 0x52 && data[1] == 0x54 && data[2] == 0x4C && data[3]
            == 0x30,
        described(data).gain_count == data[8] * 0x100_0000 + data[9] * 0x1_0000 + data[10] * 0x100
            + data[11],
        ({
            let code = data[4] * 0x100_0000 + data[5] * 0x1_0000 + data[6] * 0x100 + data[7];
            let tuner = described(data).tuner_type;
            &&& tuner == TunerType::E4000 <==> code == 1
            &&& tuner == TunerType::FC0012 <==> code == 2
            &&& tuner == TunerType::FC0013 <==> code == 3
            &&& tuner == TunerType::FC2580 <==> code == 4
            &&& tuner == TunerType::R820T <==> code == 5
            &&& tuner == TunerType::R828D <==> code == 6
            &&& tuner == TunerType::Unknown <==> code == 0 || code > 6
        }),
{
    let start = data.take(4);
    crate::protocol::numbers_of_the_protocol();
    assert(start[0] == data[0] && start[1] == data[1] && start[2] == data[2] && start[3]
        == data[3]);
    if data[0] == 0x52 && data[1] == 0x54 && data[2] == 0x4C && data[3] == 0x30 {
        assert(start =~= MAGIC@);
    }
    let (tuner, gains) = (data.subrange(4, 8), data.subrange(8, 12));
    crate::bytes::bytes_are_base_256_digits(0, tuner);
    crate::bytes::bytes_are_base_256_digits(0, gains);
    tuners_by_number(crate::bytes::be_value(tuner));
}

/// The message for a wrong start names its four bytes, in order, in decimal notation.
pub proof fn invalid_magic_message_lists_the_bytes(start: Seq<u8>)
    requires
        start.len() == 4,
    ensures
        invalid_magic_message(start) == "Invalid rtl_tcp magic: expected 'RTL0', got "@ + "["@
            + crate::text::decimal(start[0] as nat) + ", "@ + crate::text::decimal(start[1] as nat)
            + ", "@ + crate::text::decimal(start[2] as nat) + ", "@ + crate::text::decimal(
            start[3] as nat,
        ) + "]"@,
{
    let three = start.drop_last();
    let two = three.drop_last();
    let one = two.drop_last();
    assert(crate::text::comma_separated(one) == crate::text::decimal(start[0] as nat));
    assert(crate::text::comma_separated(two) == crate::text::comma_separated(one) + ", "@
        + crate::text::decimal(start[1] as nat));
    assert(crate::text::comma_separated(three) == crate::text::comma_separated(two) + ", "@
        + crate::text::decimal(start[2] as nat));
    assert(crate::text::comma_separated(start) == crate::text::comma_separated(three) + ", "@
        + crate::text::decimal(start[3] as nat));
    assert(invalid_magic_message(start) =~= "Invalid rtl_tcp magic: expected 'RTL0', got "@ + "["@
        + crate::text::decimal(start[0] as nat) + ", "@ + crate::text::decimal(start[1] as nat)
        + ", "@ + crate::text::decimal(start[2] as nat) + ", "@ + crate::text::decimal(
        start[3] as nat,
    ) + "]"@);
}

} // verus!
