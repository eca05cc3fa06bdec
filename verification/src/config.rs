//! Configuration of a client connection.

use vstd::prelude::*;

use crate::protocol::DEFAULT_PORT;
use crate::text::append_decimal;

verus! {

/// Gain setting of the tuner
#[derive(Debug, Clone, Copy, PartialEq, Eq, Structural)]
pub enum Gain {
    /// The tuner chooses its gain
    Auto,
    /// A fixed gain, in tenths of dB
    Manual(u32),
}

/// Configuration for rtl_tcp client connection
#[derive(Debug, PartialEq)]
pub struct RtlTcpConfig {
    /// Remote host address
    pub host: String,
    /// Remote port (default: 1234)
    pub port: u16,
    /// Center frequency in Hz
    pub center_freq: u32,
    /// Sample rate in Hz
    pub sample_rate: u32,
    /// Gain setting (Auto or Manual)
    pub gain: Gain,
    /// Enable bias tee power
    pub bias_tee: bool,
    /// Frequency correction in PPM
    pub ppm_correction: i32,
}

impl Clone for RtlTcpConfig {
    fn clone(&self) -> (copy: Self)
        ensures
            copy == *self,
    {
        RtlTcpConfig {
            host: self.host.clone(),
            port: self.port,
            center_freq: self.center_freq,
            sample_rate: self.sample_rate,
            gain: self.gain,
            bias_tee: self.bias_tee,
            ppm_correction: self.ppm_correction,
        }
    }
}

impl Default for RtlTcpConfig {
    fn default() -> (config: Self)
        ensures
            config.host@ == "127.0.0.1"@,
            config.port == DEFAULT_PORT,
            config.port == 1234,
            config.center_freq == 100_000_000,
            config.sample_rate == 2_048_000,
            config.gain == Gain::Auto,
            config.bias_tee == false,
            config.ppm_correction == 0,
    {
        RtlTcpConfig {
            host: "127.0.0.1".to_owned(),
            port: DEFAULT_PORT,
            center_freq: 100_000_000,
            sample_rate: 2_048_000,
            gain: Gain::Auto,
            bias_tee: false,
            ppm_correction: 0,
        }
    }
}

impl RtlTcpConfig {
    /// The address of the server: host, colon, port.
    pub open spec fn socket_address(self) -> Seq<char> {
        self.host@ + ":"@ + crate::text::decimal(self.port as nat)
    }

    /// The address starts with the host, goes on with a colon, and ends with decimal digits
    /// without a leading zero, which are read as the port.
    pub proof fn address_names_host_and_port(self)
        ensures
            ({
                let address = self.socket_address();
                let n = self.host@.len() as int;
                &&& address.len() > n + 1
                &&& address.take(n) == self.host@
                &&& address[n] == ':'
                &&& crate::text::is_decimal(address.skip(n + 1))
                &&& crate::text::digits_value(address.skip(n + 1)) == self.port
                &&& forall|i: int| n < i < address.len() ==> '0' <= #[trigger] address[i] <= '9'
                &&& address[n + 1] == '0' ==> self.port == 0 && address.len() == n + 2
            }),
    {
        reveal_strlit(":");
        crate::text::decimal_is_read_back(self.port as nat);
        let n = self.host@.len() as int;
        assert(self.socket_address().take(n) =~= self.host@);
        let digits = crate::text::decimal(self.port as nat);
        assert(self.socket_address().skip(n + 1) =~= digits);
        assert forall|i: int| n < i < self.socket_address().len() implies '0'
            <= #[trigger] self.socket_address()[i] <= '9' by {
            assert(self.socket_address()[i] == digits[i - n - 1]);
        }
        assert(self.socket_address()[n + 1] == digits[0]);
    }

    /// For one host, different ports give different addresses.
    pub proof fn address_determines_port(a: Self, b: Self)
        requires
            a.host@ == b.host@,
            a.socket_address() == b.socket_address(),
        ensures
            a.port == b.port,
    {
        a.address_names_host_and_port();
        b.address_names_host_and_port();
    }

    /// The address of the server: host, colon, port
    pub fn address(&self) -> (address: String)
        ensures
            address@ == self.socket_address(),
            address@.len() > self.host@.len() + 1,
            address@.take(self.host@.len() as int) == self.host@,
            address@[self.host@.len() as int] == ':',
            crate::text::is_decimal(address@.skip(self.host@.len() as int + 1)),
            crate::text::digits_value(address@.skip(self.host@.len() as int + 1)) == self.port,
            forall|i: int|
                self.host@.len() < i < address@.len() ==> '0' <= #[trigger] address@[i] <= '9',
            address@[self.host@.len() as int + 1] == '0' ==> self.port == 0 && address@.len()
                == self.host@.len() + 2,
    {
        proof {
            self.address_names_host_and_port();
        }
        let mut address = self.host.clone();
        address.append(":");
        append_decimal(&mut address, self.port);
        address
    }
}

} // verus!
