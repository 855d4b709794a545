//! Decisions of the ChanNet client and of `POST /chan/request`.

use vstd::prelude::*;
use vstd::string::*;

use crate::errors::ApiError;
use crate::models::ChanRequestResponse;
use crate::text::{decimal, http_reason_phrase, is_success_status, status_line};

verus! {

/// The name under which a ChanNet payload is framed and forwarded.
pub const CHAN_PAYLOAD_NAME: &'static str = "channet_payload.zip";

/// ChanNet's status endpoint under the base URL `channet_url`.
pub fn channet_status_url(channet_url: &str) -> (url: String)
    ensures
        url@ == channet_url@ + "/chan/status"@,
{
    channet_url.to_owned().concat("/chan/status")
}

/// ChanNet's command endpoint under the base URL `channet_url`.
pub fn channet_command_url(channet_url: &str) -> (url: String)
    ensures
        url@ == channet_url@ + "/chan/command"@,
{
    channet_url.to_owned().concat("/chan/command")
}

/// The answer when ChanNet at `channet_url` could not be reached.
pub fn channet_unreachable(channet_url: &str, detail: &str) -> (e: ApiError)
    ensures
        e is BroadcasterUnavailable,
        e.message_text() == "ChanNet unreachable at "@ + channet_url@ + ": "@ + detail@,
{
    ApiError::BroadcasterUnavailable(
        "ChanNet unreachable at ".to_owned().concat(channet_url).concat(": ").concat(detail),
    )
}

/// The answer when ChanNet refused a command, given the refusing status's text.
pub fn channet_refusal(status_text: &str) -> (e: ApiError)
    ensures
        e is BroadcasterUnavailable,
        e.message_text() == "ChanNet /chan/command returned HTTP "@ + status_text@,
{
    ApiError::BroadcasterUnavailable(
        "ChanNet /chan/command returned HTTP ".to_owned().concat(status_text),
    )
}

/// Judges ChanNet's answer to a command: a success status accepts it.
pub fn channet_verdict(status: u16) -> (res: Result<(), ApiError>)
    requires
        100 <= status <= 999,
    ensures
        res is Ok <==> 200 <= status < 300,
        res matches Err(e) ==> e is BroadcasterUnavailable && e.message_text()
            == "ChanNet /chan/command returned HTTP "@ + (decimal(status as nat) + " "@
            + http_reason_phrase(status)),
{
    if is_success_status(status) {
        Ok(())
    } else {
        let status_text = status_line(status);
        Err(channet_refusal(status_text.as_str()))
    }
}

/// Settles the reading of ChanNet's answer body: the ZIP bytes, or an
/// internal error carrying the read error's text.
pub fn channet_body(read: Result<Vec<u8>, String>) -> (res: Result<Vec<u8>, ApiError>)
    ensures
        read matches Ok(zip) ==> res == Ok::<Vec<u8>, ApiError>(zip),
        read matches Err(d) ==> (res matches Err(e) && e is Internal && e.message_text()
            == "reading ChanNet response body: "@ + d@),
{
    match read {
        Ok(zip) => Ok(zip),
        Err(d) => Err(ApiError::Internal("reading ChanNet response body: ".to_owned().concat(d.as_str()))),
    }
}

/// The answer to a ChanNet payload that was fetched and transmitted.
pub fn chan_request_response(tx_id: u128, zip_len: usize) -> (body: ChanRequestResponse)
    ensures
        body.status@ == "transmitted"@,
        body.tx_id == tx_id,
        body.zip_bytes == zip_len,
{
    ChanRequestResponse { status: "transmitted", tx_id, zip_bytes: zip_len }
}

} // verus!
