use rustwave::relay::{settle_forward, broadcaster_unreachable, broadcaster_verdict, part_error, probe_reachable, transmit_response};
use rustwave::chan::{channet_body, channet_command_url, channet_status_url, channet_unreachable, channet_verdict, chan_request_response, CHAN_PAYLOAD_NAME};
use rustwave::cli::plural;
use rustwave::errors::ApiError;
use rustwave::paths::{encoded_wav_name, output_path};
use rustwave::relay::{new_tx_id, queue_full};
use rustwave::text::is_success_status;
use rustwave::upload::{accept_upload, field_read_error, multipart_error, settle_decoding, settle_encoding, Decoded, UploadField};
use rustwave::wave::{attachment_disposition, decoded_download_disposition, encoded_download_disposition, wave_status_body};

#[test]
fn error_codes_and_statuses() {
    let cases = vec![
        (ApiError::BadRequest("m".to_string()), "BAD_REQUEST", 400),
        (ApiError::EncodeFailed("m".to_string()), "ENCODE_FAILED", 422),
        (ApiError::DecodeFailed("m".to_string()), "DECODE_FAILED", 422),
        (ApiError::BroadcasterUnavailable("m".to_string()), "BROADCASTER_UNAVAILABLE", 502),
        (ApiError::QueueFull("m".to_string()), "QUEUE_FULL", 503),
        (ApiError::Internal("m".to_string()), "INTERNAL_ERROR", 500),
    ];
    for (err, code, status) in cases {
        assert_eq!(err.code(), code);
        assert_eq!(err.status_code(), status);
        let body = err.envelope();
        assert_eq!(body.error.code, code);
        assert_eq!(body.error.message, "m");
        assert_eq!(body.error.status, status);
    }
}

#[test]
fn upload_needs_a_non_empty_field() {
    let err = accept_upload(None).unwrap_err();
    assert!(matches!(err, ApiError::BadRequest(_)));
    assert_eq!(err.message(), "no file field found in multipart body");

    let empty = UploadField { file_name: Some("a.txt".to_string()), data: vec![] };
    let err = accept_upload(Some(empty)).unwrap_err();
    assert_eq!(err.message(), "file field is empty");
    assert_eq!(err.status_code(), 400);

    let named = UploadField { file_name: Some("a.txt".to_string()), data: vec![1, 2] };
    assert_eq!(accept_upload(Some(named)).unwrap(), ("a.txt".to_string(), vec![1, 2]));

    let unnamed = UploadField { file_name: None, data: vec![3] };
    assert_eq!(accept_upload(Some(unnamed)).unwrap(), ("upload".to_string(), vec![3]));
}

#[test]
fn multipart_failures_are_bad_requests() {
    let err = multipart_error("boom");
    assert_eq!(err.code(), "BAD_REQUEST");
    assert_eq!(err.message(), "multipart error: boom");
    assert_eq!(field_read_error("eof").message(), "could not read field bytes: eof");
}

#[test]
fn blocking_tasks_settle() {
    assert_eq!(settle_encoding(Ok(Ok(vec![1, 2]))).unwrap(), vec![1, 2]);
    let err = settle_encoding(Ok(Err("too big".to_string()))).unwrap_err();
    assert!(matches!(err, ApiError::EncodeFailed(_)));
    assert_eq!(err.message(), "too big");
    let err = settle_encoding(Err("cancelled".to_string())).unwrap_err();
    assert!(matches!(err, ApiError::Internal(_)));
    assert_eq!(err.message(), "task panic: cancelled");

    let ok = settle_decoding(Ok(Ok(Decoded { filename: "f".to_string(), data: vec![7] }))).unwrap();
    assert_eq!(ok.filename, "f");
    assert_eq!(ok.data, vec![7]);
    let err = settle_decoding(Ok(Err("no preamble".to_string()))).unwrap_err();
    assert!(matches!(err, ApiError::DecodeFailed(_)));
    assert_eq!(err.status_code(), 422);
    let err = settle_decoding(Err("panicked".to_string())).unwrap_err();
    assert_eq!(err.message(), "task panic: panicked");
    assert_eq!(err.status_code(), 500);
}

#[test]
fn encoded_wav_names_use_the_stem() {
    assert_eq!(encoded_wav_name("report.zip"), "report_encoded.wav");
    assert_eq!(encoded_wav_name("archive.tar.gz"), "archive.tar_encoded.wav");
    assert_eq!(encoded_wav_name(".hidden"), ".hidden_encoded.wav");
    assert_eq!(encoded_wav_name("dir/notes"), "notes_encoded.wav");
    assert_eq!(encoded_wav_name(""), "_encoded.wav");
    assert_eq!(encoded_wav_name(CHAN_PAYLOAD_NAME), "channet_payload_encoded.wav");
}

#[test]
fn decoded_files_go_beside_their_input() {
    assert_eq!(output_path(None, "dir/in.wav", "orig.txt"), "dir/orig.txt");
    assert_eq!(output_path(None, "in.wav", "orig.txt"), "orig.txt");
    assert_eq!(output_path(None, "/", "orig.txt"), "./orig.txt");
    assert_eq!(output_path(Some("out.bin".to_string()), "dir/in.wav", "orig.txt"), "out.bin");
}

#[test]
fn texts_of_numbers_ids_and_statuses() {
    assert_eq!(queue_full(0, 0).message(), "incoming queue full at 0 entries; queued_id 00000000-0000-0000-0000-000000000000 dropped");
    assert_eq!(
        queue_full(1234, 0xa1a2a3a4_b1b2_c1c2_d1d2_d3d4d5d6d7d8).message(),
        "incoming queue full at 1234 entries; queued_id a1a2a3a4-b1b2-c1c2-d1d2-d3d4d5d6d7d8 dropped"
    );
    assert_eq!(channet_verdict(404).unwrap_err().message(), "ChanNet /chan/command returned HTTP 404 Not Found");
    assert_eq!(channet_verdict(418).unwrap_err().message(), "ChanNet /chan/command returned HTTP 418 I'm a teapot");
    assert_eq!(channet_verdict(599).unwrap_err().message(), "ChanNet /chan/command returned HTTP 599 <unknown status code>");
    assert!(is_success_status(200));
    assert!(is_success_status(299));
    assert!(!is_success_status(300));
    assert!(!is_success_status(199));
    let id = new_tx_id();
    assert_eq!(id & 0x0000_0000_0000_f000_c000_0000_0000_0000, 0x0000_0000_0000_4000_8000_0000_0000_0000);
    assert_ne!(id, new_tx_id());
}

#[test]
fn probes_need_a_successful_answer() {
    assert!(probe_reachable(Some(200)));
    assert!(probe_reachable(Some(204)));
    assert!(!probe_reachable(Some(503)));
    assert!(!probe_reachable(None));
}

#[test]
fn broadcaster_answers() {
    assert!(broadcaster_verdict(200, 1).is_ok());
    assert!(broadcaster_verdict(202, 1).is_ok());
    let err = broadcaster_verdict(500, 0x0123_4567_89ab_cdef_0011_2233_4455_6677).unwrap_err();
    assert!(matches!(err, ApiError::BroadcasterUnavailable(_)));
    assert_eq!(err.status_code(), 502);
    assert_eq!(
        err.message(),
        "Broadcaster returned HTTP 500 Internal Server Error for tx_id 01234567-89ab-cdef-0011-223344556677"
    );
    let err = broadcaster_unreachable("http://localhost:9090", "connection refused");
    assert_eq!(err.message(), "could not reach Broadcaster at http://localhost:9090: connection refused");
    assert_eq!(err.code(), "BROADCASTER_UNAVAILABLE");
    let err = part_error("bad mime");
    assert_eq!(err.message(), "mime error: bad mime");
    assert_eq!(err.status_code(), 500);
    let body = transmit_response(77, 4096);
    assert_eq!(body.status, "ok");
    assert_eq!(body.tx_id, 77);
    assert_eq!(body.wav_bytes, 4096);
}

#[test]
fn channet_client_answers() {
    assert_eq!(channet_status_url("http://localhost:7070"), "http://localhost:7070/chan/status");
    assert_eq!(channet_command_url("http://localhost:7070"), "http://localhost:7070/chan/command");
    let err = channet_unreachable("http://c:1", "timeout");
    assert_eq!(err.message(), "ChanNet unreachable at http://c:1: timeout");
    assert_eq!(err.status_code(), 502);
    assert!(channet_verdict(200).is_ok());
    let err = channet_verdict(404).unwrap_err();
    assert_eq!(err.message(), "ChanNet /chan/command returned HTTP 404 Not Found");
    assert_eq!(channet_body(Ok(vec![0x50, 0x4b])).unwrap(), vec![0x50, 0x4b]);
    let err = channet_body(Err("reset".to_string())).unwrap_err();
    assert!(matches!(err, ApiError::Internal(_)));
    assert_eq!(err.message(), "reading ChanNet response body: reset");
    let body = chan_request_response(9, 100);
    assert_eq!(body.status, "transmitted");
    assert_eq!(body.tx_id, 9);
    assert_eq!(body.zip_bytes, 100);
}

#[test]
fn wave_endpoint_texts() {
    let body = wave_status_body("0.1.0");
    assert_eq!(body.service, "rustwave");
    assert_eq!(body.codec, "afsk-1200");
    assert_eq!(body.version, "0.1.0");
    assert_eq!(attachment_disposition("a.bin"), "attachment; filename=\"a.bin\"");
    assert_eq!(encoded_download_disposition("photo.jpg"), "attachment; filename=\"photo_encoded.wav\"");
    let decoded = Decoded { filename: "orig.txt".to_string(), data: vec![] };
    assert_eq!(decoded_download_disposition(&decoded), "attachment; filename=\"orig.txt\"");
}

#[test]
fn plural_suffix() {
    assert_eq!(plural(1), "");
    assert_eq!(plural(0), "s");
    assert_eq!(plural(2), "s");
}

#[test]
fn forwarding_replies_settle() {
    assert!(settle_forward("http://b", 1, Ok(200)).is_ok());
    let err = settle_forward("http://b", 1, Err("refused".to_string())).unwrap_err();
    assert_eq!(err.message(), "could not reach Broadcaster at http://b: refused");
    let err = settle_forward("http://b", 0, Ok(503)).unwrap_err();
    assert_eq!(
        err.message(),
        "Broadcaster returned HTTP 503 Service Unavailable for tx_id 00000000-0000-0000-0000-000000000000"
    );
    assert!(channet_verdict(201).is_ok());
    let err = channet_verdict(400).unwrap_err();
    assert_eq!(err.message(), "ChanNet /chan/command returned HTTP 400 Bad Request");
}
