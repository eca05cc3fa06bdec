//! Asynchronous rtl_tcp I/Q sample reader.

use vstd::prelude::*;

use crate::commands::RtlTcpCommand;
use crate::config::Gain;
use crate::error::Error;
use crate::handshake::RtlTcpDongleInfo;

verus! {

/// How many chunks of samples may wait to be taken
pub const CHANNEL_CAPACITY: usize = 32;

/// What the background reader thread reported of the connection
#[derive(Debug)]
pub enum InitReport {
    /// The connection is open
    Ready(RtlTcpDongleInfo),
    /// The connection could not be opened; with the reason
    Failed(String),
    /// The thread ended without a report
    Lost,
}

/// Asynchronous rtl_tcp I/Q sample reader
///
/// Holds what is known of a remote dongle that a background thread is connected to. Settings
/// come out as commands to that thread.
pub struct AsyncRtlTcpReader {
    dongle_info: RtlTcpDongleInfo,
}

impl View for AsyncRtlTcpReader {
    type V = RtlTcpDongleInfo;

    closed spec fn view(&self) -> RtlTcpDongleInfo {
        self.dongle_info
    }
}

impl AsyncRtlTcpReader {
    /// Create a reader from the report of the background thread
    pub fn new(report: InitReport) -> (result: Result<Self, Error>)
        ensures
            match report {
                InitReport::Ready(info) => result matches Ok(reader) && reader@ == info,
                InitReport::Failed(reason) => result matches Err(Error::Device(message))
                    && message@ == "Connection failed: "@ + reason@,
                InitReport::Lost => result matches Err(Error::Device(message)) && message@
                    == "Reader thread failed to initialize"@,
            },
    {
        match report {
            InitReport::Ready(dongle_info) => Ok(AsyncRtlTcpReader { dongle_info }),
            InitReport::Failed(reason) => Err(
                Error::device_with("Connection failed: ", reason.as_str()),
            ),
            InitReport::Lost => Err(
                Error::device("Reader thread failed to initialize".to_owned()),
            ),
        }
    }

    /// Get information about the connected dongle
    pub fn dongle_info(&self) -> (info: &RtlTcpDongleInfo)
        ensures
            *info == self@,
    {
        &self.dongle_info
    }

    /// The command to send to change the center frequency
    pub fn set_frequency(&self, freq_hz: u32) -> (command: RtlTcpCommand)
        ensures
            command == RtlTcpCommand::SetFrequency(freq_hz),
    {
        RtlTcpCommand::SetFrequency(freq_hz)
    }

    /// The command to send to change the sample rate
    pub fn set_sample_rate(&self, rate_hz: u32) -> (command: RtlTcpCommand)
        ensures
            command == RtlTcpCommand::SetSampleRate(rate_hz),
    {
        RtlTcpCommand::SetSampleRate(rate_hz)
    }

    /// The command to send to change the gain
    pub fn set_gain(&self, gain: Gain) -> (command: RtlTcpCommand)
        ensures
            command == RtlTcpCommand::SetGain(gain),
    {
        RtlTcpCommand::SetGain(gain)
    }

    /// The command to send when the reader is dropped
    pub fn stop(&self) -> (command: RtlTcpCommand)
        ensures
            command == RtlTcpCommand::Stop,
    {
        RtlTcpCommand::Stop
    }

    /// What came of sending a command: an error where the background thread is gone
    pub fn sent(&self, accepted: bool) -> (result: Result<(), Error>)
        ensures
            result is Ok <==> accepted,
            result matches Err(error) ==> error matches Error::Device(message) && message@
                == "Reader thread disconnected"@,
    {
        if accepted {
            Ok(())
        } else {
            Err(Error::device("Reader thread disconnected".to_owned()))
        }
    }
}

/// At most 32 chunks of samples wait to be taken.
pub proof fn waiting_chunks_are_limited()
    ensures
        CHANNEL_CAPACITY == 32,
{
}

} // verus!
