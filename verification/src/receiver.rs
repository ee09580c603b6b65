//! The log ingestion pipeline: packet classification, channel publishing,
//! and the connection lifecycle of the ingestion thread.
//!
//! The thread keeps a connection to a fixed local endpoint alive forever:
//! connect, read packets in a loop, and on any failure drop the connection,
//! wait one backoff interval, and try again — it never gives up. The
//! decisions of that loop are the verified step function below; the
//! blocking transport work (connect, socket reads, the backoff sleep) is
//! the surrounding application's, which performs the returned action and
//! hands the next event back.

use vstd::prelude::*;

use crate::bepinex_log::{BepInExLogEntry, LogLevel};
use crate::bepinex_mod::{parse_mod_record, spec_parse_mod, BepInExMod};
use crate::channel::channel_send;
use crate::packet_protocol::{packet_bytes_to_utf8_string, utf8_lossy_of};
use crate::text::lower_of;

verus! {

/// Connection lifecycle of the ingestion thread; it loops between these
/// two states forever, with no terminal state short of process exit.
#[derive(Debug, Clone, Copy, PartialEq, Eq, Structural)]
pub enum ConnectionState {
    Disconnected,
    Connected,
}

/// What the transport reported since the last decision.
pub enum IngestEvent {
    /// A connection attempt succeeded.
    ConnectSucceeded,
    /// A connection attempt failed.
    ConnectFailed,
    /// One whole packet was read and decoded.
    PacketDecoded(LogLevel, Vec<u8>),
    /// A read failed mid-packet: the connection is dead.
    ReadFailed,
}

/// What the ingestion loop does next.
pub enum IngestAction {
    /// Wait one backoff interval, then attempt to connect again.
    RetryAfterBackoff,
    /// Publish the packet's events, then read the next packet.
    PublishPacket(LogLevel, Vec<u8>),
    /// Read the next packet.
    ReadNextPacket,
}

/// The decision the ingestion loop takes in `state` on `event`.
pub open spec fn spec_ingest_step(state: ConnectionState, event: IngestEvent) -> (
    ConnectionState,
    IngestAction,
) {
    match event {
        IngestEvent::ConnectSucceeded => (ConnectionState::Connected, IngestAction::ReadNextPacket),
        IngestEvent::ConnectFailed => (state, IngestAction::RetryAfterBackoff),
        IngestEvent::PacketDecoded(level, payload) => {
            match state {
                ConnectionState::Connected => (
                    ConnectionState::Connected,
                    IngestAction::PublishPacket(level, payload),
                ),
                ConnectionState::Disconnected => (
                    ConnectionState::Disconnected,
                    IngestAction::RetryAfterBackoff,
                ),
            }
        },
        IngestEvent::ReadFailed => (
            ConnectionState::Disconnected,
            IngestAction::RetryAfterBackoff,
        ),
    }
}

/// One decision of the ingestion loop: the next connection state and the
/// action to perform before the next event.
pub fn ingest_step(state: ConnectionState, event: IngestEvent) -> (r: (
    ConnectionState,
    IngestAction,
))
    ensures
        r == spec_ingest_step(state, event),
{
    match event {
        IngestEvent::ConnectSucceeded => (ConnectionState::Connected, IngestAction::ReadNextPacket),
        IngestEvent::ConnectFailed => (state, IngestAction::RetryAfterBackoff),
        IngestEvent::PacketDecoded(level, payload) => {
            match state {
                ConnectionState::Connected => (
                    ConnectionState::Connected,
                    IngestAction::PublishPacket(level, payload),
                ),
                ConnectionState::Disconnected => (
                    ConnectionState::Disconnected,
                    IngestAction::RetryAfterBackoff,
                ),
            }
        },
        IngestEvent::ReadFailed => (
            ConnectionState::Disconnected,
            IngestAction::RetryAfterBackoff,
        ),
    }
}

/// Reconnect liveness: a dead connection makes the loop back off and
/// retry, a failed retry backs off again — the loop never gives up — and
/// the first successful connect resumes reading at once, so the next
/// decoded packet is published again. No event after a failure ends the
/// loop: delivery resumes without manual intervention after at most one
/// backoff interval past the moment the endpoint accepts connections.
pub proof fn lemma_reconnect_liveness(level: LogLevel, payload: Vec<u8>)
    ensures
        spec_ingest_step(ConnectionState::Connected, IngestEvent::ReadFailed) == (
            ConnectionState::Disconnected,
            IngestAction::RetryAfterBackoff,
        ),
        spec_ingest_step(ConnectionState::Disconnected, IngestEvent::ConnectFailed) == (
            ConnectionState::Disconnected,
            IngestAction::RetryAfterBackoff,
        ),
        spec_ingest_step(ConnectionState::Disconnected, IngestEvent::ConnectSucceeded) == (
            ConnectionState::Connected,
            IngestAction::ReadNextPacket,
        ),
        spec_ingest_step(
            ConnectionState::Connected,
            IngestEvent::PacketDecoded(level, payload),
        ) == (ConnectionState::Connected, IngestAction::PublishPacket(level, payload)),
{
}

/// The ingestion side of the pipeline: the configured endpoint port and
/// the sending halves of the two event channels.
pub struct LogReceiverThread {
    log_socket_port_receiver: u16,
    log_sender: crossbeam_channel::Sender<BepInExLogEntry>,
    mod_sender: crossbeam_channel::Sender<BepInExMod>,
}

impl LogReceiverThread {
    pub closed spec fn spec_port(self) -> u16 {
        self.log_socket_port_receiver
    }

    pub fn new(
        log_socket_port_receiver: u16,
        log_sender: crossbeam_channel::Sender<BepInExLogEntry>,
        mod_sender: crossbeam_channel::Sender<BepInExMod>,
    ) -> (r: LogReceiverThread)
        ensures
            r.spec_port() == log_socket_port_receiver,
    {
        LogReceiverThread { log_socket_port_receiver, log_sender, mod_sender }
    }

    /// Port of the local endpoint the ingestion thread connects to.
    pub fn port(&self) -> (port: u16)
        ensures
            port == self.spec_port(),
    {
        self.log_socket_port_receiver
    }

    /// Classify one decoded packet: always a log entry holding the decoded
    /// payload text; additionally a mod record when the text carries one.
    pub fn make_log_entry_from_packet_data(log_level: LogLevel, string_packet_bytes: &Vec<u8>) -> (r:
        (BepInExLogEntry, Option<BepInExMod>))
        ensures
            r.0.spec_level() == log_level,
            r.0.spec_data()@ == utf8_lossy_of(string_packet_bytes@),
            r.0.spec_data_lowercase()@ == lower_of(utf8_lossy_of(string_packet_bytes@)),
            !r.0.spec_selected(),
            match r.1 {
                Some(m) => {
                    &&& spec_parse_mod(string_packet_bytes@) is Some
                    &&& m.spec_name()@ == utf8_lossy_of(
                        spec_parse_mod(string_packet_bytes@)->Some_0.0,
                    )
                    &&& m.spec_version()@ == utf8_lossy_of(
                        spec_parse_mod(string_packet_bytes@)->Some_0.1,
                    )
                },
                None => spec_parse_mod(string_packet_bytes@) is None,
            },
    {
        let text = packet_bytes_to_utf8_string(string_packet_bytes.as_slice());
        let entry = BepInExLogEntry::new(log_level, text.as_str());
        let mod_record = parse_mod_record(string_packet_bytes);
        (entry, mod_record)
    }

    /// Publish the events of one decoded packet: the mod record when one
    /// is parsed, then the log entry unconditionally. The sends never
    /// block; a failed send is dropped, never a crash of the thread.
    pub fn send_bepinex_log_packet_to_channel(
        &self,
        log_level: LogLevel,
        string_packet_bytes: &Vec<u8>,
    ) {
        let (entry, mod_record) = Self::make_log_entry_from_packet_data(
            log_level,
            string_packet_bytes,
        );
        if let Some(m) = mod_record {
            let _ = channel_send(&self.mod_sender, m);
        }
        let _ = channel_send(&self.log_sender, entry);
    }
}

} // verus!
