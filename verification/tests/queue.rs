use rustwave::relay::{finish_receive, queue_decoded, take_incoming, IncomingReply};
use rustwave::errors::ApiError;
use rustwave::state::{AppState, QueuedFile, DEFAULT_BROADCASTER_URL, DEFAULT_CHANNET_URL, DEFAULT_MAX_QUEUE_DEPTH};
use rustwave::relay::new_tx_id;
use rustwave::upload::Decoded;

#[test]
fn queue_enqueue_dequeue() {
    let mut state = AppState::new(false, None, None);
    assert_eq!(state.queue_depth(), 0);

    state.enqueue(QueuedFile { queued_id: new_tx_id(), bytes: b"hello".to_vec() });

    assert_eq!(state.queue_depth(), 1);
    let file = state.dequeue().unwrap();
    assert_eq!(file.bytes.as_slice(), b"hello");
    assert!(state.dequeue().is_none());
}

#[test]
fn queue_enqueue_dequeue_roundtrip() {
    let mut state = AppState::new(false, None, None);
    assert_eq!(state.queue_depth(), 0);

    state.enqueue(QueuedFile { queued_id: new_tx_id(), bytes: b"api-test".to_vec() });

    assert_eq!(state.queue_depth(), 1);
    assert!(state.dequeue().is_some());
    assert!(state.dequeue().is_none());
}

#[test]
fn queue_preserves_fifo_order() {
    let mut state = AppState::new(true, None, None);

    for i in 0u8..3 {
        state.enqueue(QueuedFile { queued_id: new_tx_id(), bytes: vec![i] });
    }

    assert_eq!(state.queue_depth(), 3);
    for expected in 0u8..3 {
        let dequeued = state.dequeue();
        assert!(dequeued.is_some(), "queue should have an item");
        if let Some(file) = dequeued {
            assert_eq!(file.bytes.first().copied(), Some(expected), "bytes non-empty");
        }
    }
    assert_eq!(state.queue_depth(), 0);
}

#[test]
fn new_state_uses_defaults_and_settings() {
    let state = AppState::new(true, None, None);
    assert_eq!(state.broadcaster_url, DEFAULT_BROADCASTER_URL);
    assert_eq!(state.broadcaster_url, "http://localhost:9090");
    assert_eq!(state.channet_url, DEFAULT_CHANNET_URL);
    assert_eq!(state.channet_url, "http://localhost:7070");
    assert!(state.wave_routes_enabled);
    assert_eq!(state.max_queue_depth, DEFAULT_MAX_QUEUE_DEPTH);

    let state = AppState::new(false, Some("http://b:1".to_string()), Some("http://c:2".to_string()));
    assert_eq!(state.broadcaster_url, "http://b:1");
    assert_eq!(state.channet_url, "http://c:2");
    assert!(!state.wave_routes_enabled);
}

#[test]
fn try_enqueue_refuses_when_full() {
    let mut state = AppState::new(false, None, None);
    state.max_queue_depth = 2;
    assert!(state.try_enqueue(QueuedFile { queued_id: 1, bytes: vec![1] }).is_ok());
    assert!(state.try_enqueue(QueuedFile { queued_id: 2, bytes: vec![2] }).is_ok());
    let refused = state.try_enqueue(QueuedFile { queued_id: 3, bytes: vec![3] });
    match refused {
        Err(file) => {
            assert_eq!(file.queued_id, 3);
            assert_eq!(file.bytes, vec![3]);
        }
        Ok(()) => panic!("a full queue accepted a file"),
    }
    assert_eq!(state.queue_depth(), 2);
    assert_eq!(state.dequeue().unwrap().queued_id, 1);
    assert_eq!(state.dequeue().unwrap().queued_id, 2);
}

#[test]
fn status_body_reports_state() {
    let mut state = AppState::new(false, Some("http://radio:9".to_string()), None);
    state.enqueue(QueuedFile { queued_id: 5, bytes: vec![] });
    let body = state.status_body(true, false);
    assert_eq!(body.service, "rustwave");
    assert!(body.broadcaster_connected);
    assert!(!body.channet_connected);
    assert_eq!(body.broadcaster_url, "http://radio:9");
    assert_eq!(body.queue_depth, 1);
    assert_eq!(body.queue_limit, DEFAULT_MAX_QUEUE_DEPTH);
}

#[test]
fn received_file_is_handed_out_unchanged() {
    let mut state = AppState::new(false, None, None);
    let decoded = Decoded { filename: "snap.zip".to_string(), data: vec![9, 8, 7] };
    let body = finish_receive(&mut state, decoded, 42).unwrap();
    assert_eq!(body.status, "ok");
    assert_eq!(body.queued_id, 42);
    assert_eq!(body.decoded_bytes, 3);
    match take_incoming(&mut state) {
        IncomingReply::File(file) => {
            assert_eq!(file.queued_id, 42);
            assert_eq!(file.bytes, vec![9, 8, 7]);
        }
        IncomingReply::Empty(_) => panic!("the received file was lost"),
    }
    match take_incoming(&mut state) {
        IncomingReply::Empty(body) => assert_eq!(body.status, "empty"),
        IncomingReply::File(_) => panic!("an empty queue handed out a file"),
    }
}

#[test]
fn receive_into_full_queue_is_refused() {
    let mut state = AppState::new(false, None, None);
    state.max_queue_depth = 1;
    let first = Decoded { filename: "a".to_string(), data: vec![1] };
    assert!(finish_receive(&mut state, first, 1).is_ok());
    let second = Decoded { filename: "b".to_string(), data: vec![2] };
    let err = finish_receive(&mut state, second, 0x0123_4567_89ab_cdef_0011_2233_4455_6677).unwrap_err();
    assert!(matches!(err, ApiError::QueueFull(_)));
    assert_eq!(err.status_code(), 503);
    assert_eq!(err.code(), "QUEUE_FULL");
    assert_eq!(
        err.message(),
        "incoming queue full at 1 entries; queued_id 01234567-89ab-cdef-0011-223344556677 dropped"
    );
    assert_eq!(state.queue_depth(), 1);
}

#[test]
fn queue_decoded_uses_a_fresh_v4_id() {
    let mut state = AppState::new(false, None, None);
    let decoded = Decoded { filename: "a".to_string(), data: vec![4, 5] };
    let body = queue_decoded(&mut state, decoded).unwrap();
    assert_eq!((body.queued_id >> 76) & 0xf, 4);
    let file = state.dequeue().unwrap();
    assert_eq!(file.queued_id, body.queued_id);
    assert_eq!(file.bytes, vec![4, 5]);
}

#[test]
fn two_receives_then_three_takes() {
    let mut state = AppState::new(false, None, None);
    let first = queue_decoded(&mut state, Decoded { filename: "a".to_string(), data: vec![1] }).unwrap();
    let second = queue_decoded(&mut state, Decoded { filename: "b".to_string(), data: vec![2, 2] }).unwrap();
    match take_incoming(&mut state) {
        IncomingReply::File(file) => {
            assert_eq!(file.queued_id, first.queued_id);
            assert_eq!(file.bytes, vec![1]);
        }
        IncomingReply::Empty(_) => panic!("first payload lost"),
    }
    match take_incoming(&mut state) {
        IncomingReply::File(file) => {
            assert_eq!(file.queued_id, second.queued_id);
            assert_eq!(file.bytes, vec![2, 2]);
        }
        IncomingReply::Empty(_) => panic!("second payload lost"),
    }
    match take_incoming(&mut state) {
        IncomingReply::Empty(body) => assert_eq!(body.status, "empty"),
        IncomingReply::File(_) => panic!("a payload came out twice"),
    }
}

#[test]
fn queue_decoded_into_full_queue_names_the_dropped_id() {
    let mut state = AppState::new(false, None, None);
    state.max_queue_depth = 0;
    let err = queue_decoded(&mut state, Decoded { filename: "a".to_string(), data: vec![1] }).unwrap_err();
    assert!(matches!(err, ApiError::QueueFull(_)));
    let message = err.message();
    assert!(message.starts_with("incoming queue full at 0 entries; queued_id "));
    assert!(message.ends_with(" dropped"));
    let id_text = &message["incoming queue full at 0 entries; queued_id ".len()..message.len() - " dropped".len()];
    assert_eq!(id_text.len(), 36);
    assert_eq!(&id_text[14..15], "4");
    assert_eq!(state.queue_depth(), 0);
}
