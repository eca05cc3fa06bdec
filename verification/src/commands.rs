//! Which packets a setting takes.

use vstd::prelude::*;

use crate::config::{Gain, RtlTcpConfig};
use crate::packet::Packet;
use crate::protocol::{
    CMD_SET_AGC_MODE, CMD_SET_BIAS_TEE, CMD_SET_FREQUENCY, CMD_SET_FREQ_CORRECTION, CMD_SET_GAIN,
    CMD_SET_GAIN_MODE, CMD_SET_SAMPLE_RATE,
};

verus! {

/// Commands that can be sent to the background reader thread
#[derive(Debug)]
pub enum RtlTcpCommand {
    /// Set center frequency in Hz
    SetFrequency(u32),
    /// Set sample rate in Hz
    SetSampleRate(u32),
    /// Set gain
    SetGain(Gain),
    /// Stop the reader
    Stop,
}

/// The packet that sets the center frequency.
pub open spec fn frequency_packet(freq_hz: u32) -> Packet {
    Packet { cmd: CMD_SET_FREQUENCY, value: freq_hz }
}

/// The packet that sets the sample rate.
pub open spec fn sample_rate_packet(rate_hz: u32) -> Packet {
    Packet { cmd: CMD_SET_SAMPLE_RATE, value: rate_hz }
}

/// The packets that set the gain: the gain mode, the AGC mode, and the value of a manual gain.
pub open spec fn gain_packets(gain: Gain) -> Seq<Packet> {
    match gain {
        Gain::Auto => seq![
            Packet { cmd: CMD_SET_GAIN_MODE, value: 0 },
            Packet { cmd: CMD_SET_AGC_MODE, value: 1 },
        ],
        Gain::Manual(gain_tenths) => seq![
            Packet { cmd: CMD_SET_GAIN_MODE, value: 1 },
            Packet { cmd: CMD_SET_AGC_MODE, value: 0 },
            Packet { cmd: CMD_SET_GAIN, value: gain_tenths },
        ],
    }
}

/// A signed number as an unsigned one with the same 32 bits.
pub open spec fn twos_complement(n: i32) -> u32 {
    if n >= 0 {
        n as u32
    } else {
        (n + 0x1_0000_0000) as u32
    }
}

/// The packets that set the frequency correction: none where there is nothing to correct.
pub open spec fn correction_packets(ppm_correction: i32) -> Seq<Packet> {
    if ppm_correction == 0 {
        Seq::empty()
    } else {
        seq![Packet { cmd: CMD_SET_FREQ_CORRECTION, value: twos_complement(ppm_correction) }]
    }
}

/// The packet that switches the bias tee.
pub open spec fn bias_tee_packet(on: bool) -> Packet {
    Packet { cmd: CMD_SET_BIAS_TEE, value: if on { 1 } else { 0 } }
}

/// The packets that set up the device, in order. The sample rate goes first: some servers
/// require it before the frequency.
pub open spec fn configuration(config: RtlTcpConfig) -> Seq<Packet> {
    seq![sample_rate_packet(config.sample_rate), frequency_packet(config.center_freq)]
        + gain_packets(config.gain) + correction_packets(config.ppm_correction)
        + seq![bias_tee_packet(config.bias_tee)]
}

/// The packets that a command to the reader thread takes; a stop takes none.
pub open spec fn command_packets(command: RtlTcpCommand) -> Seq<Packet> {
    match command {
        RtlTcpCommand::SetFrequency(freq_hz) => seq![frequency_packet(freq_hz)],
        RtlTcpCommand::SetSampleRate(rate_hz) => seq![sample_rate_packet(rate_hz)],
        RtlTcpCommand::SetGain(gain) => gain_packets(gain),
        RtlTcpCommand::Stop => Seq::empty(),
    }
}

/// The packet that sets the center frequency
pub fn set_frequency_packet(freq_hz: u32) -> (packet: Packet)
    ensures
        packet == frequency_packet(freq_hz),
        packet.cmd == 0x01,
        packet.value == freq_hz,
{
    Packet { cmd: CMD_SET_FREQUENCY, value: freq_hz }
}

/// The packet that sets the sample rate
pub fn set_sample_rate_packet(rate_hz: u32) -> (packet: Packet)
    ensures
        packet == sample_rate_packet(rate_hz),
        packet.cmd == 0x02,
        packet.value == rate_hz,
{
    Packet { cmd: CMD_SET_SAMPLE_RATE, value: rate_hz }
}

/// The packets that set the gain, in order
pub fn set_gain_packets(gain: Gain) -> (packets: Vec<Packet>)
    ensures
        packets@ == gain_packets(gain),
        match gain {
            Gain::Auto => {
                &&& packets@.len() == 2
                &&& packets@[0].cmd == 0x03 && packets@[0].value == 0
                &&& packets@[1].cmd == 0x08 && packets@[1].value == 1
            },
            Gain::Manual(gain_tenths) => {
                &&& packets@.len() == 3
                &&& packets@[0].cmd == 0x03 && packets@[0].value == 1
                &&& packets@[1].cmd == 0x08 && packets@[1].value == 0
                &&& packets@[2].cmd == 0x04 && packets@[2].value == gain_tenths
            },
        },
{
    let mut packets: Vec<Packet> = Vec::new();
    match gain {
        Gain::Auto => {
            packets.push(Packet { cmd: CMD_SET_GAIN_MODE, value: 0 });
            packets.push(Packet { cmd: CMD_SET_AGC_MODE, value: 1 });
        },
        Gain::Manual(gain_tenths) => {
            packets.push(Packet { cmd: CMD_SET_GAIN_MODE, value: 1 });
            packets.push(Packet { cmd: CMD_SET_AGC_MODE, value: 0 });
            packets.push(Packet { cmd: CMD_SET_GAIN, value: gain_tenths });
        },
    }
    packets
}

/// The packets that set up the device with the given settings, in order
pub fn configure_device(config: &RtlTcpConfig) -> (packets: Vec<Packet>)
    ensures
        packets@ == configuration(*config),
        packets@.len() == 3 + (if config.gain is Auto {
            2int
        } else {
            3
        }) + (if config.ppm_correction == 0 {
            0int
        } else {
            1
        }),
        packets@[0].cmd == 0x02 && packets@[0].value == config.sample_rate,
        packets@[1].cmd == 0x01 && packets@[1].value == config.center_freq,
        match config.gain {
            Gain::Auto => {
                &&& packets@[2].cmd == 0x03 && packets@[2].value == 0
                &&& packets@[3].cmd == 0x08 && packets@[3].value == 1
            },
            Gain::Manual(gain_tenths) => {
                &&& packets@[2].cmd == 0x03 && packets@[2].value == 1
                &&& packets@[3].cmd == 0x08 && packets@[3].value == 0
                &&& packets@[4].cmd == 0x04 && packets@[4].value == gain_tenths
            },
        },
        config.ppm_correction != 0 ==> packets@[packets@.len() - 2].cmd == 0x05,
        config.ppm_correction > 0 ==> packets@[packets@.len() - 2].value == config.ppm_correction,
        config.ppm_correction < 0 ==> packets@[packets@.len() - 2].value == config.ppm_correction
            + 0x1_0000_0000,
        packets@[packets@.len() - 1].cmd == 0x0E,
        packets@[packets@.len() - 1].value == if config.bias_tee {
            1int
        } else {
            0
        },
{
    let mut packets: Vec<Packet> = Vec::new();

    // Sample rate first (some servers require this before frequency)
    packets.push(set_sample_rate_packet(config.sample_rate));
    packets.push(set_frequency_packet(config.center_freq));

    let mut gain = set_gain_packets(config.gain);
    packets.append(&mut gain);

    if config.ppm_correction != 0 {
        let ppm: i32 = config.ppm_correction;
        let value: u32 = #[verifier::truncate] (ppm as u32);
        proof {
            assert(ppm < 0 ==> (ppm as u32) == ppm + 0x1_0000_0000) by (bit_vector);
        }
        packets.push(Packet { cmd: CMD_SET_FREQ_CORRECTION, value });
    }
    packets.push(
        Packet {
            cmd: CMD_SET_BIAS_TEE,
            value: if config.bias_tee {
                1
            } else {
                0
            },
        },
    );
    assert(packets@ =~= configuration(*config));
    packets
}

/// The setup starts with the sample rate and the frequency, goes on with exactly the packets
/// that set the gain, and ends with the bias tee; between the last two stands at most the
/// frequency correction.
pub proof fn configuration_order(config: RtlTcpConfig)
    ensures
        ({
            let packets = configuration(config);
            let gain = gain_packets(config.gain);
            &&& packets.len() == 3 + gain.len() + if config.ppm_correction == 0 { 0int } else { 1 }
            &&& packets[0] == sample_rate_packet(config.sample_rate)
            &&& packets[1] == frequency_packet(config.center_freq)
            &&& packets.subrange(2, 2 + gain.len() as int) == gain
            &&& packets.last() == bias_tee_packet(config.bias_tee)
        }),
{
    let packets = configuration(config);
    let gain = gain_packets(config.gain);
    assert(packets.subrange(2, 2 + gain.len() as int) =~= gain);
}

/// The two's complement of a number differs from that of any other.
pub proof fn twos_complement_is_injective(a: i32, b: i32)
    requires
        twos_complement(a) == twos_complement(b),
    ensures
        a == b,
{
}

/// Every setting reaches the server: configurations that give the same packets agree in all
/// but the server's address.
pub proof fn configuration_determines_settings(a: RtlTcpConfig, b: RtlTcpConfig)
    requires
        configuration(a) == configuration(b),
    ensures
        a.sample_rate == b.sample_rate,
        a.center_freq == b.center_freq,
        a.gain == b.gain,
        a.ppm_correction == b.ppm_correction,
        a.bias_tee == b.bias_tee,
{
    configuration_order(a);
    configuration_order(b);
    let (pa, pb) = (configuration(a), configuration(b));
    assert(pa[2] == gain_packets(a.gain)[0] && pb[2] == gain_packets(b.gain)[0]);
    if a.gain is Manual {
        assert(pa[4] == gain_packets(a.gain)[2] && pb[4] == gain_packets(b.gain)[2]);
    }
    assert(a.gain == b.gain);
    let k = 2 + gain_packets(a.gain).len() as int;
    if a.ppm_correction != 0 {
        assert(pa[k] == correction_packets(a.ppm_correction)[0]);
        assert(pb[k] == correction_packets(b.ppm_correction)[0]);
        twos_complement_is_injective(a.ppm_correction, b.ppm_correction);
    }
}

/// Every setting can be told from the bytes that are sent: configurations that send the same
/// bytes agree in all but the server's address.
pub proof fn sent_bytes_determine_settings(a: RtlTcpConfig, b: RtlTcpConfig)
    requires
        crate::packet::stream_of(configuration(a)) == crate::packet::stream_of(configuration(b)),
    ensures
        a.sample_rate == b.sample_rate,
        a.center_freq == b.center_freq,
        a.gain == b.gain,
        a.ppm_correction == b.ppm_correction,
        a.bias_tee == b.bias_tee,
{
    crate::packet::stream_determines_packets(configuration(a), configuration(b));
    configuration_determines_settings(a, b);
}

/// A setting takes the same packets as a command to the reader thread as it takes when it is
/// sent directly.
pub proof fn commands_take_the_packets_of_their_settings(freq_hz: u32, rate_hz: u32, gain: Gain)
    ensures
        command_packets(RtlTcpCommand::SetFrequency(freq_hz)) == seq![frequency_packet(freq_hz)],
        command_packets(RtlTcpCommand::SetSampleRate(rate_hz)) == seq![
            sample_rate_packet(rate_hz),
        ],
        command_packets(RtlTcpCommand::SetGain(gain)) == gain_packets(gain),
{
}

/// A frequency reaches the server as it is, under command 1: sent directly, as a command to the
/// reader thread, and in the setup.
pub proof fn frequency_is_sent_as_it_is(freq_hz: u32, config: RtlTcpConfig)
    ensures
        frequency_packet(freq_hz).cmd == 0x01,
        frequency_packet(freq_hz).value == freq_hz,
        command_packets(RtlTcpCommand::SetFrequency(freq_hz)).len() == 1,
        command_packets(RtlTcpCommand::SetFrequency(freq_hz))[0].cmd == 0x01,
        command_packets(RtlTcpCommand::SetFrequency(freq_hz))[0].value == freq_hz,
        configuration(config)[1].cmd == 0x01,
        configuration(config)[1].value == config.center_freq,
{
}

/// A sample rate reaches the server as it is, under command 2: sent directly, as a command to the
/// reader thread, and first in the setup.
pub proof fn sample_rate_is_sent_as_it_is(rate_hz: u32, config: RtlTcpConfig)
    ensures
        sample_rate_packet(rate_hz).cmd == 0x02,
        sample_rate_packet(rate_hz).value == rate_hz,
        command_packets(RtlTcpCommand::SetSampleRate(rate_hz)).len() == 1,
        command_packets(RtlTcpCommand::SetSampleRate(rate_hz))[0].cmd == 0x02,
        command_packets(RtlTcpCommand::SetSampleRate(rate_hz))[0].value == rate_hz,
        configuration(config)[0].cmd == 0x02,
        configuration(config)[0].value == config.sample_rate,
{
}

/// A manual gain switches the gain mode to manual and the AGC off, and reaches the server as it
/// is; an automatic gain switches the gain mode to automatic and the AGC on. Exactly one of the
/// two modes is 1.
pub proof fn gain_sets_mode_agc_and_value(gain_tenths: u32, gain: Gain)
    ensures
        gain_packets(Gain::Manual(gain_tenths)).len() == 3,
        gain_packets(Gain::Manual(gain_tenths))[0].cmd == 0x03,
        gain_packets(Gain::Manual(gain_tenths))[0].value == 1,
        gain_packets(Gain::Manual(gain_tenths))[1].cmd == 0x08,
        gain_packets(Gain::Manual(gain_tenths))[1].value == 0,
        gain_packets(Gain::Manual(gain_tenths))[2].cmd == 0x04,
        gain_packets(Gain::Manual(gain_tenths))[2].value == gain_tenths,
        gain_packets(Gain::Auto).len() == 2,
        gain_packets(Gain::Auto)[0].cmd == 0x03,
        gain_packets(Gain::Auto)[0].value == 0,
        gain_packets(Gain::Auto)[1].cmd == 0x08,
        gain_packets(Gain::Auto)[1].value == 1,
        gain_packets(gain)[0].value + gain_packets(gain)[1].value == 1,
        command_packets(RtlTcpCommand::SetGain(gain)) == gain_packets(gain),
{
}

/// A frequency correction reaches the server as the number that is congruent to it modulo 2 to
/// the power of 32, under command 5; where there is nothing to correct, nothing is sent.
pub proof fn correction_is_congruent(ppm_correction: i32)
    ensures
        ppm_correction == 0 ==> correction_packets(ppm_correction).len() == 0,
        ppm_correction != 0 ==> {
            let packets = correction_packets(ppm_correction);
            &&& packets.len() == 1
            &&& packets[0].cmd == 0x05
            &&& (packets[0].value - ppm_correction) % 0x1_0000_0000 == 0
            &&& packets[0].value == if ppm_correction > 0 {
                ppm_correction as int
            } else {
                ppm_correction + 0x1_0000_0000
            }
        },
        (twos_complement(ppm_correction) - ppm_correction) % 0x1_0000_0000 == 0,
{
}

/// Corrections of opposite sign cancel out in what the server is sent.
pub proof fn opposite_corrections_cancel(ppm_correction: i32)
    requires
        ppm_correction > 0,
    ensures
        twos_complement(ppm_correction) + twos_complement((-ppm_correction) as i32)
            == 0x1_0000_0000,
        twos_complement(ppm_correction) <= i32::MAX,
{
}

/// The bias tee is switched by command 14, last in the setup: by 1 on, and by 0 off.
pub proof fn bias_tee_is_switched_last(on: bool, config: RtlTcpConfig)
    ensures
        bias_tee_packet(on).cmd == 0x0E,
        bias_tee_packet(on).value == 1 <==> on,
        bias_tee_packet(on).value == 0 <==> !on,
        configuration(config).last().cmd == 0x0E,
        configuration(config).last().value == 1 <==> config.bias_tee,
        configuration(config).last().value == 0 <==> !config.bias_tee,
{
}

/// Between the frequency and the bias tee the setup holds the gain and the correction, and nothing
/// else.
pub proof fn setup_is_complete(config: RtlTcpConfig)
    ensures
        ({
            let packets = configuration(config);
            let gain: int = if config.gain is Auto {
                2
            } else {
                3
            };
            let correction: int = if config.ppm_correction == 0 {
                0
            } else {
                1
            };
            &&& packets.len() == 3 + gain + correction
            &&& packets[2].cmd == 0x03 && packets[3].cmd == 0x08
            &&& packets[2].value == if config.gain is Auto {
                0int
            } else {
                1
            }
            &&& packets[2].value + packets[3].value == 1
            &&& config.gain matches Gain::Manual(gain_tenths) ==> packets[4].cmd == 0x04
                && packets[4].value == gain_tenths
            &&& config.ppm_correction != 0 ==> packets[2 + gain].cmd == 0x05 && (packets[2
                + gain].value - config.ppm_correction) % 0x1_0000_0000 == 0
        }),
{
    configuration_order(config);
    correction_is_congruent(config.ppm_correction);
    let packets = configuration(config);
    let gain = gain_packets(config.gain);
    gain_sets_mode_agc_and_value(0, config.gain);
    assert(packets[2] == gain[0] && packets[3] == gain[1]);
    if config.gain is Manual {
        assert(packets[4] == gain[2]);
    }
    if config.ppm_correction != 0 {
        assert(packets[2 + gain.len() as int] == correction_packets(config.ppm_correction)[0]);
    }
}

/// A stop takes no packet; every other command takes at least one.
pub proof fn only_a_stop_takes_no_packet(command: RtlTcpCommand)
    ensures
        command_packets(command).len() == 0 <==> command is Stop,
{
}

} // verus!
