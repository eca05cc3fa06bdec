//! Constants of the rtl_tcp protocol.

use vstd::prelude::*;

verus! {

/// Magic bytes at start of handshake: "RTL0"
pub const MAGIC: &'static [u8; 4] = &[0x52, 0x54, 0x4C, 0x30];

/// Default rtl_tcp server port
pub const DEFAULT_PORT: u16 = 1234;

/// Default buffer size for I/Q samples (16KB = 8K samples)
pub const DEFAULT_BUF_SIZE: usize = 16384;

/// Connection timeout in seconds
pub const CONNECT_TIMEOUT_SECS: u64 = 10;

// Command IDs (5-byte packets: cmd_id + u32 BE value)

/// Set center frequency in Hz
pub const CMD_SET_FREQUENCY: u8 = 0x01;

/// Set sample rate in Hz
pub const CMD_SET_SAMPLE_RATE: u8 = 0x02;

/// Set gain mode: 0=auto, 1=manual
pub const CMD_SET_GAIN_MODE: u8 = 0x03;

/// Set tuner gain in tenths of dB (manual mode)
pub const CMD_SET_GAIN: u8 = 0x04;

/// Set frequency correction in PPM
pub const CMD_SET_FREQ_CORRECTION: u8 = 0x05;

/// Set IF gain stage (stage << 16 | gain_tenths_db)
pub const CMD_SET_IF_GAIN: u8 = 0x06;

/// Enable/disable test mode
pub const CMD_SET_TEST_MODE: u8 = 0x07;

/// Set AGC mode: 0=off, 1=on
pub const CMD_SET_AGC_MODE: u8 = 0x08;

/// Set direct sampling mode: 0=off, 1=I-ADC, 2=Q-ADC
pub const CMD_SET_DIRECT_SAMPLING: u8 = 0x09;

/// Set offset tuning: 0=off, 1=on
pub const CMD_SET_OFFSET_TUNING: u8 = 0x0A;

/// Set RTL xtal frequency
pub const CMD_SET_RTL_XTAL: u8 = 0x0B;

/// Set tuner xtal frequency
pub const CMD_SET_TUNER_XTAL: u8 = 0x0C;

/// Set tuner gain by index
pub const CMD_SET_GAIN_BY_INDEX: u8 = 0x0D;

/// Set bias tee: 0=off, 1=on
pub const CMD_SET_BIAS_TEE: u8 = 0x0E;

/// The magic bytes spell "RTL0", and the commands are numbered from 1 to 14.
pub proof fn numbers_of_the_protocol()
    ensures
        MAGIC@ == seq![0x52u8, 0x54u8, 0x4Cu8, 0x30u8],
        DEFAULT_PORT == 1234,
        DEFAULT_BUF_SIZE == 16 * 1024,
        CONNECT_TIMEOUT_SECS == 10,
        CMD_SET_FREQUENCY == 1,
        CMD_SET_SAMPLE_RATE == 2,
        CMD_SET_GAIN_MODE == 3,
        CMD_SET_GAIN == 4,
        CMD_SET_FREQ_CORRECTION == 5,
        CMD_SET_IF_GAIN == 6,
        CMD_SET_TEST_MODE == 7,
        CMD_SET_AGC_MODE == 8,
        CMD_SET_DIRECT_SAMPLING == 9,
        CMD_SET_OFFSET_TUNING == 10,
        CMD_SET_RTL_XTAL == 11,
        CMD_SET_TUNER_XTAL == 12,
        CMD_SET_GAIN_BY_INDEX == 13,
        CMD_SET_BIAS_TEE == 14,
{
    assert(MAGIC@ =~= seq![0x52u8, 0x54u8, 0x4Cu8, 0x30u8]);
}

} // verus!
