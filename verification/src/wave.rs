//! Decisions of the `/wave/*` codec endpoints.

use vstd::prelude::*;
use vstd::string::*;

use crate::models::WaveStatusResponse;
use crate::paths::{encoded_wav_name, path_file_stem, stem_or_empty};
use crate::upload::Decoded;

verus! {

/// Content type of an encoded WAV download.
pub const WAV_DOWNLOAD_TYPE: &'static str = "audio/wav";

/// Content type of a decoded file download.
pub const DECODED_DOWNLOAD_TYPE: &'static str = "application/octet-stream";

/// The answer of `GET /wave/status` for the given package version.
pub fn wave_status_body(version: &'static str) -> (body: WaveStatusResponse)
    ensures
        body.service@ == "rustwave"@,
        body.codec@ == "afsk-1200"@,
        body.version@ == version@,
{
    WaveStatusResponse { service: "rustwave", codec: "afsk-1200", version }
}

/// The content disposition that offers a download named `filename`.
pub fn attachment_disposition(filename: &str) -> (header: String)
    ensures
        header@ == "attachment; filename=\""@ + filename@ + "\""@,
{
    "attachment; filename=\"".to_owned().concat(filename).concat("\"")
}

/// The content disposition of the WAV encoded from `original_filename`:
/// a download named `{stem}_encoded.wav`.
pub fn encoded_download_disposition(original_filename: &str) -> (header: String)
    ensures
        header@ == "attachment; filename=\""@ + (stem_or_empty(path_file_stem(original_filename@))
            + "_encoded.wav"@) + "\""@,
        path_file_stem(original_filename@) matches Some(s) ==> header@ == "attachment; filename=\""@
            + (s + "_encoded.wav"@) + "\""@,
{
    let name = encoded_wav_name(original_filename);
    attachment_disposition(name.as_str())
}

/// The content disposition of a decoded file: a download under its original name.
pub fn decoded_download_disposition(decoded: &Decoded) -> (header: String)
    ensures
        header@ == "attachment; filename=\""@ + decoded.filename@ + "\""@,
{
    attachment_disposition(decoded.filename.as_str())
}

} // verus!
