//! The JSON request and response bodies of the RustWave API.

use vstd::prelude::*;

verus! {

/// Answer of `GET /wave/status`.
#[derive(Debug)]
pub struct WaveStatusResponse {
    pub service: &'static str,
    pub codec: &'static str,
    pub version: &'static str,
}

/// Answer of the transmit endpoint.
#[derive(Debug)]
pub struct TransmitResponse {
    pub status: &'static str,
    /// The 128-bit value of the transmission's UUID.
    pub tx_id: u128,
    pub wav_bytes: usize,
}

/// Answer of the receive endpoint.
#[derive(Debug)]
pub struct ReceiveResponse {
    pub status: &'static str,
    /// The 128-bit value of the UUID the decoded file was queued under.
    pub queued_id: u128,
    pub decoded_bytes: usize,
}

/// Answer of the incoming endpoint when the queue is empty.
#[derive(Debug)]
pub struct QueueEmptyResponse {
    pub status: &'static str,
}

/// The commands ChanNet's `/chan/command` endpoint accepts.
#[derive(Debug)]
pub enum ChanCommand {
    /// All boards and all active posts, optionally only those since a time.
    FullExport { since: Option<u64> },
    /// All active posts of one board, optionally only those since a time.
    BoardExport { board: String, since: Option<u64> },
    /// All posts of one thread, optionally only those since a time.
    ThreadExport { thread_id: u64, since: Option<u64> },
    /// All archived threads and posts of one board.
    ArchiveExport { board: String },
    /// The entire database; for initial sync or recovery.
    ForceRefresh,
    /// A new reply to an existing thread (the only write command).
    ReplyPush { board: String, thread_id: u64, author: String, content: String, timestamp: u64 },
}

/// Answer of `POST /chan/request`.
#[derive(Debug)]
pub struct ChanRequestResponse {
    pub status: &'static str,
    /// The 128-bit value of the transmission's UUID.
    pub tx_id: u128,
    pub zip_bytes: usize,
}

/// The body of the error answer.
#[derive(Debug)]
pub struct ErrorDetail {
    pub code: String,
    pub message: String,
    pub status: u16,
}

#[derive(Debug)]
pub struct ErrorEnvelope {
    pub error: ErrorDetail,
}

/// Answer of the relay status endpoint.
#[derive(Debug)]
pub struct BroadcastStatusResponse {
    pub service: &'static str,
    pub broadcaster_connected: bool,
    pub channet_connected: bool,
    pub broadcaster_url: String,
    pub queue_depth: usize,
    pub queue_limit: usize,
}

} // verus!
