//! Decisions of the radio-relay endpoints: forwarding encoded WAVs to
//! the broadcaster, queueing decoded payloads, and handing them out.

use vstd::prelude::*;
use vstd::string::*;

use crate::errors::ApiError;
use crate::models::{QueueEmptyResponse, ReceiveResponse, TransmitResponse};
use crate::state::{bounded_push, popped, pushed, AppState, QueuedFile, QueuedFileView};
use crate::text::{decimal, fresh_uuid, is_v4_id, is_success_status, status_line, usize_text, uuid_string, uuid_text, http_reason_phrase};
use crate::upload::Decoded;

verus! {

/// Content type of a queued payload handed to ChanNet.
pub const SNAPSHOT_CONTENT_TYPE: &'static str = "application/octet-stream";

/// Content disposition of a queued payload handed to ChanNet.
pub const SNAPSHOT_DISPOSITION: &'static str = "attachment; filename=\"snapshot.zip\"";

/// Content type of the WAV forwarded to the broadcaster.
pub const WAV_CONTENT_TYPE: &'static str = "audio/wav";

/// Whether a reachability probe succeeded: it got an answer (`status` is the
/// answer's status number) and the answer was a success.
pub fn probe_reachable(status: Option<u16>) -> (reachable: bool)
    ensures
        reachable == (status matches Some(code) && 200 <= code < 300),
{
    match status {
        Some(code) => is_success_status(code),
        None => false,
    }
}

/// The answer when the broadcaster at `url` could not be reached.
pub fn broadcaster_unreachable(url: &str, detail: &str) -> (e: ApiError)
    ensures
        e is BroadcasterUnavailable,
        e.message_text() == "could not reach Broadcaster at "@ + url@ + ": "@ + detail@,
{
    ApiError::BroadcasterUnavailable(
        "could not reach Broadcaster at ".to_owned().concat(url).concat(": ").concat(detail),
    )
}

/// The answer when the WAV's multipart part could not be built.
pub fn part_error(detail: &str) -> (e: ApiError)
    ensures
        e is Internal,
        e.message_text() == "mime error: "@ + detail@,
{
    ApiError::Internal("mime error: ".to_owned().concat(detail))
}

/// The answer when the broadcaster refused transmission `tx_id`, given the
/// text of the refusing status and of the transmission id.
pub fn broadcaster_refusal(status_text: &str, tx_id_text: &str) -> (e: ApiError)
    ensures
        e is BroadcasterUnavailable,
        e.message_text() == "Broadcaster returned HTTP "@ + status_text@ + " for tx_id "@
            + tx_id_text@,
{
    ApiError::BroadcasterUnavailable(
        "Broadcaster returned HTTP ".to_owned().concat(status_text).concat(" for tx_id ").concat(
            tx_id_text,
        ),
    )
}

/// Judges the broadcaster's answer to transmission `tx_id`: a success
/// status accepts it, any other refuses it.
pub fn broadcaster_verdict(status: u16, tx_id: u128) -> (res: Result<(), ApiError>)
    requires
        100 <= status <= 999,
    ensures
        res is Ok <==> 200 <= status < 300,
        res matches Err(e) ==> e is BroadcasterUnavailable && e.message_text()
            == "Broadcaster returned HTTP "@ + (decimal(status as nat) + " "@ + http_reason_phrase(
            status,
        )) + " for tx_id "@ + uuid_text(tx_id),
{
    if is_success_status(status) {
        Ok(())
    } else {
        let status_text = status_line(status);
        let id_text = uuid_string(tx_id);
        Err(broadcaster_refusal(status_text.as_str(), id_text.as_str()))
    }
}

/// Settles the forwarding of transmission `tx_id` to the broadcaster at
/// `broadcaster_url`: `reply` is the answer's status number, or the text of
/// the error that kept the request from being answered.
pub fn settle_forward(broadcaster_url: &str, tx_id: u128, reply: Result<u16, String>) -> (res:
    Result<(), ApiError>)
    requires
        reply matches Ok(status) ==> 100 <= status <= 999,
    ensures
        reply matches Err(d) ==> (res matches Err(e) && e is BroadcasterUnavailable
            && e.message_text() == "could not reach Broadcaster at "@ + broadcaster_url@ + ": "@
            + d@),
        reply matches Ok(status) ==> (res is Ok <==> 200 <= status < 300),
        reply matches Ok(status) ==> (res matches Err(e) ==> e is BroadcasterUnavailable
            && e.message_text() == "Broadcaster returned HTTP "@ + (decimal(status as nat) + " "@
            + http_reason_phrase(status)) + " for tx_id "@ + uuid_text(tx_id)),
{
    match reply {
        Err(d) => Err(broadcaster_unreachable(broadcaster_url, d.as_str())),
        Ok(status) => broadcaster_verdict(status, tx_id),
    }
}

/// Draws the id of a new transmission: a random version-4 UUID, as its
/// 128-bit value.
pub fn new_tx_id() -> (id: u128)
    ensures
        is_v4_id(id),
{
    fresh_uuid()
}

/// The answer to an accepted transmission.
pub fn transmit_response(tx_id: u128, wav_len: usize) -> (body: TransmitResponse)
    ensures
        body.status@ == "ok"@,
        body.tx_id == tx_id,
        body.wav_bytes == wav_len,
{
    TransmitResponse { status: "ok", tx_id, wav_bytes: wav_len }
}

/// The answer when the queue is full and the file queued as `queued_id`
/// is dropped.
pub fn queue_full(max_queue_depth: usize, queued_id: u128) -> (e: ApiError)
    ensures
        e is QueueFull,
        e.message_text() == "incoming queue full at "@ + decimal(max_queue_depth as nat)
            + " entries; queued_id "@ + uuid_text(queued_id) + " dropped"@,
{
    let depth_text = usize_text(max_queue_depth);
    let id_text = uuid_string(queued_id);
    ApiError::QueueFull(
        "incoming queue full at ".to_owned().concat(depth_text.as_str()).concat(
            " entries; queued_id ",
        ).concat(id_text.as_str()).concat(" dropped"),
    )
}

/// Queues a decoded file under `queued_id`, unless the queue is full.
pub fn finish_receive(state: &mut AppState, decoded: Decoded, queued_id: u128) -> (res: Result<
    ReceiveResponse,
    ApiError,
>)
    ensures
        res is Err <==> old(state).incoming_queue@.len() >= old(state).max_queue_depth,
        res matches Ok(body) ==> body.status@ == "ok"@ && body.queued_id == queued_id
            && body.decoded_bytes == decoded.data@.len(),
        res is Ok ==> final(state).incoming_queue@ == pushed(
            old(state).incoming_queue@,
            QueuedFileView { queued_id, bytes: decoded.data@ },
        ),
        res matches Err(e) ==> e is QueueFull && e.message_text() == "incoming queue full at "@
            + decimal(old(state).max_queue_depth as nat) + " entries; queued_id "@ + uuid_text(
            queued_id,
        ) + " dropped"@,
        res is Err ==> final(state).incoming_queue@ == old(state).incoming_queue@,
        final(state).incoming_queue@ == bounded_push(
            old(state).incoming_queue@,
            QueuedFileView { queued_id, bytes: decoded.data@ },
            old(state).max_queue_depth as nat,
        ),
        final(state).max_queue_depth == old(state).max_queue_depth,
        final(state).broadcaster_url == old(state).broadcaster_url,
        final(state).channet_url == old(state).channet_url,
        final(state).wave_routes_enabled == old(state).wave_routes_enabled,
{
    let decoded_size = decoded.data.len();
    let file = QueuedFile { queued_id, bytes: decoded.data };
    match state.try_enqueue(file) {
        Ok(()) => Ok(ReceiveResponse { status: "ok", queued_id, decoded_bytes: decoded_size }),
        Err(dropped) => Err(queue_full(state.max_queue_depth, dropped.queued_id)),
    }
}

/// Queues a decoded file under a fresh random UUID, unless the queue is full.
pub fn queue_decoded(state: &mut AppState, decoded: Decoded) -> (res: Result<
    ReceiveResponse,
    ApiError,
>)
    ensures
        res is Err <==> old(state).incoming_queue@.len() >= old(state).max_queue_depth,
        res matches Ok(body) ==> body.status@ == "ok"@ && body.decoded_bytes == decoded.data@.len()
            && final(state).incoming_queue@ == pushed(
            old(state).incoming_queue@,
            QueuedFileView { queued_id: body.queued_id, bytes: decoded.data@ },
        ),
        res matches Ok(body) ==> is_v4_id(body.queued_id),
        res matches Err(e) ==> e is QueueFull && exists|id: u128|
            #![trigger uuid_text(id)]
            is_v4_id(id) && e.message_text() == "incoming queue full at "@ + decimal(
                old(state).max_queue_depth as nat,
            ) + " entries; queued_id "@ + uuid_text(id) + " dropped"@,
        res is Err ==> final(state).incoming_queue@ == old(state).incoming_queue@,
        final(state).max_queue_depth == old(state).max_queue_depth,
        final(state).broadcaster_url == old(state).broadcaster_url,
        final(state).channet_url == old(state).channet_url,
        final(state).wave_routes_enabled == old(state).wave_routes_enabled,
{
    let queued_id = fresh_uuid();
    finish_receive(state, decoded, queued_id)
}

/// What the incoming endpoint answers: the oldest queued file, or the
/// "empty" status when nothing is queued.
#[derive(Debug)]
pub enum IncomingReply {
    File(QueuedFile),
    Empty(QueueEmptyResponse),
}

/// Takes the oldest queued file for ChanNet, or answers "empty".
pub fn take_incoming(state: &mut AppState) -> (reply: IncomingReply)
    ensures
        old(state).incoming_queue@.len() == 0 ==> (reply matches IncomingReply::Empty(body)
            && body.status@ == "empty"@),
        old(state).incoming_queue@.len() > 0 ==> (reply matches IncomingReply::File(file) && Some(
            file@,
        ) == popped(old(state).incoming_queue@).0),
        final(state).incoming_queue@ == popped(old(state).incoming_queue@).1,
        final(state).max_queue_depth == old(state).max_queue_depth,
        final(state).broadcaster_url == old(state).broadcaster_url,
        final(state).channet_url == old(state).channet_url,
        final(state).wave_routes_enabled == old(state).wave_routes_enabled,
{
    match state.dequeue() {
        Some(file) => IncomingReply::File(file),
        None => IncomingReply::Empty(QueueEmptyResponse { status: "empty" }),
    }
}

} // verus!
