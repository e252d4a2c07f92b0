use zenbookd::ipc::{frame_length, receive_message, send_message, IpcError, MAX_MESSAGE_LEN};

fn request_body() -> Vec<u8> {
    // How a `Request::SetChargeLimit(80)` reads on the wire.
    br#"{"SetChargeLimit":80}"#.to_vec()
}

#[test]
fn roundtrips_a_request() {
    let mut buf = Vec::new();
    send_message(&mut buf, &request_body()).unwrap();

    let decoded = receive_message(&buf[..]).unwrap();

    assert_eq!(decoded, request_body());
}

#[test]
fn roundtrips_a_status_response() {
    let body = br#"{"Status":{"charge_limit":80,"enable_periodic_full_charge":true,"full_charge_period":30,"battery_health":94,"battery_charge":72,"applied_threshold":null,"boost_until":1768000000,"last_full_charge":null,"calibration_active":false,"threshold_error":null,"config_error":null}}"#.to_vec();

    let mut buf = Vec::new();
    send_message(&mut buf, &body).unwrap();

    let decoded = receive_message(&buf[..]).unwrap();

    assert_eq!(decoded, body);
    assert!(String::from_utf8(decoded).unwrap().contains("\"battery_charge\":72"));
}

#[test]
fn length_prefix_matches_payload_length() {
    let mut buf = Vec::new();
    send_message(&mut buf, br#""GetStatus""#).unwrap();

    let len = u32::from_be_bytes(buf[..4].try_into().unwrap()) as usize;

    assert_eq!(len, buf.len() - 4);
}

#[test]
fn truncated_frame_is_an_io_error() {
    let mut buf = Vec::new();
    send_message(&mut buf, br#""GetStatus""#).unwrap();
    buf.pop();

    let err = receive_message(&buf[..]).unwrap_err();

    assert!(matches!(err, IpcError::Io(_)));
}

#[test]
fn oversized_length_prefix_is_rejected() {
    let mut buf = ((MAX_MESSAGE_LEN + 1) as u32).to_be_bytes().to_vec();
    buf.extend_from_slice(b"{}");

    let err = receive_message(&buf[..]).unwrap_err();

    assert!(matches!(err, IpcError::MessageTooLarge(_)));
}

#[test]
fn absurd_length_prefix_is_rejected_without_allocating() {
    let mut buf = u32::MAX.to_be_bytes().to_vec();
    buf.extend_from_slice(b"{}");

    let err = receive_message(&buf[..]).unwrap_err();

    assert!(matches!(err, IpcError::MessageTooLarge(_)));
}

#[test]
fn send_rejects_an_oversized_payload_without_writing_a_partial_frame() {
    // How `Response::Error("x".repeat(MAX_MESSAGE_LEN))` reads on the wire.
    let mut huge = br#"{"Error":""#.to_vec();
    huge.extend(std::iter::repeat(b'x').take(MAX_MESSAGE_LEN));
    huge.extend_from_slice(br#""}"#);

    let mut buf = Vec::new();
    let err = send_message(&mut buf, &huge).unwrap_err();

    assert!(matches!(err, IpcError::MessageTooLarge(_)));
    assert!(buf.is_empty());
}

#[test]
fn a_body_of_exactly_the_limit_is_accepted() {
    let body = vec![b'a'; MAX_MESSAGE_LEN];
    let mut buf = Vec::new();
    send_message(&mut buf, &body).unwrap();
    assert_eq!(buf.len(), MAX_MESSAGE_LEN + 4);
    assert_eq!(&buf[..4], &[0, 1, 0, 0]);
    assert_eq!(receive_message(&buf[..]).unwrap(), body);
}

#[test]
fn the_oversize_error_names_the_announced_length() {
    let buf = [0u8, 1, 0, 1, b'x'];
    assert_eq!(receive_message(&buf[..]), Err(IpcError::MessageTooLarge(65537)));
    assert_eq!(frame_length([0, 1, 0, 1]), Err(IpcError::MessageTooLarge(65537)));
    assert_eq!(frame_length([0, 0, 1, 2]), Ok(258));
}

#[test]
fn a_frame_is_read_from_the_front_of_a_stream() {
    let mut buf = Vec::new();
    send_message(&mut buf, b"first").unwrap();
    send_message(&mut buf, b"second").unwrap();
    assert_eq!(receive_message(&buf[..]).unwrap(), b"first".to_vec());
    assert_eq!(receive_message(&buf[9..]).unwrap(), b"second".to_vec());
}

#[test]
fn a_short_header_is_truncated_with_the_system_message() {
    assert_eq!(
        receive_message(&[0u8, 0][..]),
        Err(IpcError::Io("failed to fill whole buffer".to_string()))
    );
}

#[test]
fn an_empty_body_roundtrips() {
    let mut buf = Vec::new();
    send_message(&mut buf, b"").unwrap();
    assert_eq!(buf, vec![0, 0, 0, 0]);
    assert_eq!(receive_message(&buf[..]).unwrap(), Vec::<u8>::new());
}

#[test]
fn malformed_body_is_a_json_error() {
    let body = b"not json";

    let mut buf = (body.len() as u32).to_be_bytes().to_vec();
    buf.extend_from_slice(body);

    let received = receive_message(&buf[..]).unwrap();
    let err = serde_json::from_slice::<serde_json::Value>(&received)
        .map_err(|err| IpcError::Json(err.to_string()))
        .unwrap_err();

    assert!(matches!(err, IpcError::Json(_)));
    assert!(matches!(
        zenbookd::service::reject_request(&err),
        Some(zenbookd::ipc::Response::Error(m)) if m.starts_with("Invalid request: ")
    ));
}
