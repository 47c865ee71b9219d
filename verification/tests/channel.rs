use worker_channel::channel::{
    ChannelState, JsonAction, NotificationError, PayloadAction, PayloadReader, RequestError,
    is_json_plain, request_timeout_ms,
};
use worker_channel::json::{classify_frame, InboundFrame};
use worker_channel::registry::{RequestRegistry, ResponseOutcome};
use worker_channel::NS_PAYLOAD_MAX_LEN;

fn oneshot() -> (
    async_oneshot::Sender<ResponseOutcome>,
    async_oneshot::Receiver<ResponseOutcome>,
) {
    async_oneshot::oneshot()
}

#[test]
fn request_wire_is_exact() {
    let mut chan = ChannelState::new();
    let (tx, _rx) = oneshot();
    let prep = chan
        .start_request(tx, "worker.dump", &b"{}".to_vec(), 0)
        .unwrap();
    assert_eq!(prep.id, 0);
    assert_eq!(prep.depth, 0);
    assert_eq!(prep.wire, br#"{"id":0,"method":"worker.dump"}"#.to_vec());

    // A request with fields splices them after the method.
    let (tx2, _rx2) = oneshot();
    let prep2 = chan
        .start_request(tx2, "router.createRouter", &br#"{"routerId":"r1"}"#.to_vec(), 0)
        .unwrap();
    assert_eq!(prep2.id, 1);
    assert_eq!(prep2.depth, 1);
    assert_eq!(
        prep2.wire,
        br#"{"id":1,"method":"router.createRouter","routerId":"r1"}"#.to_vec()
    );
}

#[test]
fn notify_wire_is_exact() {
    let chan = ChannelState::new();
    let wire = chan
        .start_notify("worker.close", &b"{}".to_vec(), 0)
        .unwrap();
    assert_eq!(wire, br#"{"event":"worker.close"}"#.to_vec());

    let wire2 = chan
        .start_notify("transport.send", &br#"{"ppid":51}"#.to_vec(), 5)
        .unwrap();
    assert_eq!(wire2, br#"{"event":"transport.send","ppid":51}"#.to_vec());
}

#[test]
fn single_rpc_resolves_with_data() {
    // A request goes out and the worker's success response, routed by id,
    // resolves the caller's slot with the data.
    let mut chan = ChannelState::new();
    let (tx, rx) = oneshot();
    let prep = chan
        .start_request(tx, "worker.dump", &b"{}".to_vec(), 0)
        .unwrap();

    let mut reader = PayloadReader::new();
    let frame = classify_frame(&br#"{"id":0,"accepted":true,"data":{}}"#.to_vec());
    match &frame {
        InboundFrame::Success { id, data } => {
            assert_eq!(*id, prep.id);
            assert!(data.is_some());
        }
        other => panic!("not classified as a success: {:?}", variant_name(other)),
    }
    match reader.on_json_frame(frame, &mut chan) {
        JsonAction::Completed {
            id,
            mut sender,
            outcome,
        } => {
            assert_eq!(id, prep.id);
            sender.send(outcome).unwrap();
        }
        _ => panic!("response did not complete the request"),
    }
    match rx.try_recv() {
        Ok(ResponseOutcome::Accepted { data }) => {
            assert_eq!(
                data.unwrap(),
                serde_json::Value::Object(serde_json::Map::new())
            );
        }
        _ => panic!("caller was not handed the success"),
    }
    assert_eq!(chan.depth(), 0);
}

fn variant_name(frame: &InboundFrame) -> &'static str {
    match frame {
        InboundFrame::Success { .. } => "Success",
        InboundFrame::Error { .. } => "Error",
        InboundFrame::Notification { .. } => "Notification",
        InboundFrame::Unexpected { .. } => "Unexpected",
    }
}

#[test]
fn error_response_surfaces_reason() {
    let mut chan = ChannelState::new();
    let (tx, rx) = oneshot();
    let _prep = chan
        .start_request(tx, "router.createAudioLevelObserver", &b"{}".to_vec(), 0)
        .unwrap();

    let mut reader = PayloadReader::new();
    let frame = classify_frame(
        &br#"{"id":0,"error":"TypeError","reason":"invalid interval"}"#.to_vec(),
    );
    match reader.on_json_frame(frame, &mut chan) {
        JsonAction::Completed {
            id,
            mut sender,
            outcome,
        } => {
            assert_eq!(id, 0);
            match &outcome {
                ResponseOutcome::Rejected { reason } => assert_eq!(reason, "invalid interval"),
                ResponseOutcome::Accepted { .. } => panic!("an error frame must carry a rejection"),
            }
            sender.send(outcome).unwrap();
        }
        _ => panic!("error response did not complete the request"),
    }
    match rx.try_recv() {
        Ok(ResponseOutcome::Rejected { reason }) => assert_eq!(reason, "invalid interval"),
        _ => panic!("caller was not handed the rejection"),
    }
}

#[test]
fn response_matching_ignores_unknown_ids() {
    // A response whose id is not in flight is counted and dropped; the
    // registry does not change.
    let mut chan = ChannelState::new();
    let (tx, _rx) = oneshot();
    let _prep = chan.start_request(tx, "worker.dump", &b"{}".to_vec(), 0).unwrap();
    assert_eq!(chan.depth(), 1);

    let mut reader = PayloadReader::new();
    let frame = classify_frame(&br#"{"id":99,"accepted":true}"#.to_vec());
    match reader.on_json_frame(frame, &mut chan) {
        JsonAction::Unmatched { id } => assert_eq!(id, 99),
        _ => panic!("unknown id should not match"),
    }
    assert_eq!(chan.depth(), 1);
}

#[test]
fn ids_are_unique_and_depth_counts() {
    let mut reg = RequestRegistry::new();
    let mut ids = Vec::new();
    for expected_depth in 0..5usize {
        let (tx, _rx) = oneshot();
        let (id, depth, displaced) = reg.allocate(tx);
        assert_eq!(depth, expected_depth);
        assert!(displaced.is_none());
        assert!(!ids.contains(&id));
        ids.push(id);
    }
    assert_eq!(reg.depth(), 5);
    // Taking one request's slot frees exactly that id.
    assert!(reg.take(ids[2]).is_some());
    assert_eq!(reg.depth(), 4);
    assert!(reg.take(ids[2]).is_none());
}

#[test]
fn timed_out_request_is_reclaimed() {
    let mut chan = ChannelState::new();
    let (tx, _rx) = oneshot();
    let prep = chan.start_request(tx, "worker.dump", &b"{}".to_vec(), 0).unwrap();
    assert!(chan.forget_request(prep.id));
    // A late response for the reclaimed id matches nothing.
    let mut reader = PayloadReader::new();
    let frame = classify_frame(&br#"{"id":0,"accepted":true}"#.to_vec());
    match reader.on_json_frame(frame, &mut chan) {
        JsonAction::Unmatched { id } => assert_eq!(id, 0),
        _ => panic!("late response should not match"),
    }
}

#[test]
fn json_plain_accepts_method_names_only() {
    assert!(is_json_plain("worker.dump"));
    assert!(is_json_plain("transport-1 stats"));
    assert!(!is_json_plain("with\"quote"));
    assert!(!is_json_plain("with\\backslash"));
    assert!(!is_json_plain("with\nnewline"));
}

#[test]
fn timeout_scales_with_depth() {
    assert_eq!(request_timeout_ms(0), 15_000);
    assert_eq!(request_timeout_ms(1), 15_100);
    assert_eq!(request_timeout_ms(10), 16_000);
    assert_eq!(request_timeout_ms(100), 25_000);
}

#[test]
fn oversize_message_is_refused_before_write() {
    let mut chan = ChannelState::new();
    // A serialized body just over the cap.
    let mut message = b"{\"pad\":\"".to_vec();
    message.resize(NS_PAYLOAD_MAX_LEN + 1, b'x');
    message.extend_from_slice(b"\"}");
    let (tx, _rx) = oneshot();
    let r = chan.start_request(tx, "worker.dump", &message, 0);
    assert!(matches!(r, Err(RequestError::MessageTooLong)));
    // Nothing stays in flight for the refused request.
    assert_eq!(chan.depth(), 0);

    let n = chan.start_notify("worker.close", &message, 0);
    assert!(matches!(n, Err(NotificationError::MessageTooLong)));
}

#[test]
fn oversize_payload_is_refused_before_write() {
    let mut chan = ChannelState::new();
    let (tx, _rx) = oneshot();
    let r = chan.start_request(tx, "worker.dump", &b"{}".to_vec(), NS_PAYLOAD_MAX_LEN + 1);
    assert!(matches!(r, Err(RequestError::PayloadTooLong)));
    assert_eq!(chan.depth(), 0);

    let n = chan.start_notify("worker.close", &b"{}".to_vec(), NS_PAYLOAD_MAX_LEN + 1);
    assert!(matches!(n, Err(NotificationError::PayloadTooLong)));
}

#[test]
fn close_fails_everything() {
    let mut chan = ChannelState::new();
    let (tx1, rx1) = oneshot();
    let (tx2, rx2) = oneshot();
    chan.start_request(tx1, "worker.dump", &b"{}".to_vec(), 0).unwrap();
    chan.start_request(tx2, "worker.dump", &b"{}".to_vec(), 0).unwrap();
    assert_eq!(chan.depth(), 2);

    // Close hands every parked slot back; dropping them resolves every
    // pending request as closed.
    let senders = chan.close();
    assert_eq!(senders.len(), 2);
    drop(senders);
    assert!(rx1.try_recv().is_err());
    assert!(rx2.try_recv().is_err());
    assert_eq!(chan.depth(), 0);

    // After close, request and notify both refuse with ChannelClosed,
    // and the refused request leaves nothing in flight.
    let (tx3, _rx3) = oneshot();
    let r = chan.start_request(tx3, "worker.dump", &b"{}".to_vec(), 0);
    assert!(matches!(r, Err(RequestError::ChannelClosed)));
    assert_eq!(chan.depth(), 0);
    let n = chan.start_notify("worker.close", &b"{}".to_vec(), 0);
    assert!(matches!(n, Err(NotificationError::ChannelClosed)));
}

#[test]
fn payload_lane_pairs_notification_with_next_frame() {
    // A notification announces a trailing payload frame; the very next
    // frame is delivered with it, and the payload is never classified.
    let mut chan = ChannelState::new();
    let mut reader = PayloadReader::new();
    assert!(!reader.expects_payload());

    let frame = classify_frame(
        &br#"{"targetId":"P9","event":"message","ppid":51}"#.to_vec(),
    );
    match reader.on_json_frame(frame, &mut chan) {
        JsonAction::ExpectPayload => {}
        _ => panic!("notification must wait for its payload"),
    }
    assert!(reader.expects_payload());

    match reader.on_payload_frame(b"hello".to_vec()) {
        PayloadAction::Deliver {
            target_id,
            message,
            payload,
        } => {
            assert_eq!(target_id, "P9");
            assert_eq!(message.get("ppid").unwrap().as_u64(), Some(51));
            assert_eq!(payload, b"hello".to_vec());
        }
        PayloadAction::Surface { .. } => panic!("targeted pair must be delivered"),
    }
    assert!(!reader.expects_payload());
}

#[test]
fn untargeted_notification_pair_is_surfaced() {
    let mut chan = ChannelState::new();
    let mut reader = PayloadReader::new();
    let frame = classify_frame(&br#"{"event":"message","ppid":53}"#.to_vec());
    assert!(matches!(
        reader.on_json_frame(frame, &mut chan),
        JsonAction::ExpectPayload
    ));
    match reader.on_payload_frame(vec![1, 2, 3]) {
        PayloadAction::Surface { data } => assert_eq!(data, vec![1, 2, 3]),
        PayloadAction::Deliver { .. } => panic!("pair without a target must be surfaced"),
    }
}

#[test]
fn unparseable_frame_is_surfaced_verbatim() {
    let mut chan = ChannelState::new();
    let mut reader = PayloadReader::new();
    let frame = classify_frame(&b"not json at all".to_vec());
    match reader.on_json_frame(frame, &mut chan) {
        JsonAction::Surface { data } => assert_eq!(data, b"not json at all".to_vec()),
        _ => panic!("bytes that do not parse must be surfaced"),
    }
    assert!(!reader.expects_payload());
}

#[test]
fn classification_follows_field_shapes() {
    // An id whose value does not fit u32 is no response.
    let frame = classify_frame(&br#"{"id":4294967296,"accepted":true}"#.to_vec());
    assert!(matches!(frame, InboundFrame::Notification { .. }));
    // An error without a reason is no response either.
    let frame = classify_frame(&br#"{"id":7,"error":"x"}"#.to_vec());
    assert!(matches!(frame, InboundFrame::Notification { .. }));
    // A response error needs id, error and a string reason.
    let frame = classify_frame(&br#"{"id":7,"error":"x","reason":"why"}"#.to_vec());
    match frame {
        InboundFrame::Error { id, reason } => {
            assert_eq!(id, 7);
            assert_eq!(reason, "why");
        }
        _ => panic!("full error shape must classify as an error"),
    }
}
