//! A verified client for the rtl_tcp protocol
//!
//! rtl_tcp is a simple protocol that allows streaming I/Q samples from an RTL-SDR device over
//! TCP.
//!
//! # Protocol Overview
//!
//! 1. Client connects to server (default port 1234)
//! 2. Server sends 12-byte handshake: magic "RTL0" + tuner_type (u32 BE) + gain_count (u32 BE)
//! 3. Client sends 5-byte commands: cmd_id (u8) + value (u32 BE)
//! 4. Server streams raw Cu8 I/Q samples continuously
//!
//! # Layout
//!
//! The crate decides; it performs no I/O. The owner of the connection performs an action and
//! hands back what came of it:
//!
//! - [`Connection`] opens a connection and ends with an [`RtlTcpReader`].
//! - [`RtlTcpReader`] turns settings into a [`Transmission`] of packets, and reads into chunks of
//!   samples.
//! - [`Worker`] is the background thread behind an [`AsyncRtlTcpReader`].

pub mod async_reader;
pub mod bytes;
pub mod commands;
pub mod config;
pub mod connection;
pub mod error;
pub mod handshake;
pub mod history;
pub mod packet;
pub mod protocol;
pub mod reader;
pub mod samples;
pub mod text;
pub mod transmission;
pub mod worker;

pub use crate::async_reader::{AsyncRtlTcpReader, InitReport};
pub use crate::commands::{configure_device, RtlTcpCommand};
pub use crate::config::{Gain, RtlTcpConfig};
pub use crate::connection::{
    ConnectAction, ConnectError, ConnectEvent, ConnectProgress, Connection,
};
pub use crate::error::Error;
pub use crate::handshake::{parse_handshake, RtlTcpDongleInfo, TunerType};
pub use crate::packet::Packet;
pub use crate::reader::{ReadErrorKind, ReadOutcome, RtlTcpReader};
pub use crate::samples::iq_pairs;
pub use crate::transmission::{Transmission, TransmissionProgress};
pub use crate::worker::{CommandPoll, Worker, WorkerAction, WorkerEvent};
