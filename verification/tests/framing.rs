use ts_error_translator::codec::{
    decode_frame, decode_frame_at_eof, encode_frame, DecodeResult, EofDecode, FrameError,
};

#[test]
fn test_roundtrip() {
    let original = b"{\"jsonrpc\":\"2.0\",\"id\":1}";

    let wire = encode_frame(original);

    match decode_frame(&wire) {
        DecodeResult::Frame { payload, consumed } => {
            assert_eq!(payload, original.to_vec());
            assert_eq!(consumed, wire.len());
        }
        other => panic!("expected a frame, got {:?}", other),
    }
}

#[test]
fn test_eof_returns_none() {
    assert!(matches!(decode_frame_at_eof(&[]), EofDecode::End));
}

#[test]
fn roundtrip_empty_payload() {
    let wire = encode_frame(b"");
    assert_eq!(wire, b"Content-Length: 0\r\n\r\n".to_vec());
    match decode_frame(&wire) {
        DecodeResult::Frame { payload, consumed } => {
            assert_eq!(payload, Vec::<u8>::new());
            assert_eq!(consumed, wire.len());
        }
        other => panic!("expected a frame, got {:?}", other),
    }
}

#[test]
fn header_text_is_exact() {
    let wire = encode_frame(b"abc");
    assert_eq!(wire, b"Content-Length: 3\r\n\r\nabc".to_vec());
}

#[test]
fn truncated_payload_is_a_framing_error() {
    // the header declares ten bytes but only three arrive before end of stream
    let input = b"Content-Length: 10\r\n\r\nabc";
    assert!(matches!(decode_frame(input), DecodeResult::Incomplete));
    assert!(matches!(
        decode_frame_at_eof(input),
        EofDecode::Failed { err: FrameError::Truncated }
    ));
}

#[test]
fn stream_ending_mid_header_is_a_framing_error() {
    let input = b"Content-Length: 10";
    assert!(matches!(decode_frame(input), DecodeResult::Incomplete));
    assert!(matches!(
        decode_frame_at_eof(input),
        EofDecode::Failed { err: FrameError::Truncated }
    ));
}

#[test]
fn missing_length_header_is_rejected() {
    let input = b"X-Other: nope\r\n\r\nhi";
    assert!(matches!(
        decode_frame(input),
        DecodeResult::Failed { err: FrameError::MissingLength }
    ));
}

#[test]
fn invalid_length_header_is_rejected() {
    let input = b"Content-Length: abc\r\n\r\nhi";
    assert!(matches!(
        decode_frame(input),
        DecodeResult::Failed { err: FrameError::InvalidLength }
    ));
}

#[test]
fn unknown_headers_are_ignored_in_any_order() {
    let input = b"X-First: 1\r\nContent-Length: 2\r\nX-Last: z\r\n\r\nhiEXTRA";
    match decode_frame(input) {
        DecodeResult::Frame { payload, consumed } => {
            assert_eq!(payload, b"hi".to_vec());
            assert_eq!(consumed, input.len() - 5);
        }
        other => panic!("expected a frame, got {:?}", other),
    }
}

#[test]
fn bare_newline_headers_are_accepted() {
    let input = b"Content-Length: 2\n\nok";
    match decode_frame(input) {
        DecodeResult::Frame { payload, .. } => assert_eq!(payload, b"ok".to_vec()),
        other => panic!("expected a frame, got {:?}", other),
    }
}

#[test]
fn two_frames_decode_in_order() {
    let mut wire = encode_frame(b"one");
    let second = encode_frame(b"two!");
    let first_len = wire.len();
    wire.extend_from_slice(&second);
    match decode_frame(&wire) {
        DecodeResult::Frame { payload, consumed } => {
            assert_eq!(payload, b"one".to_vec());
            assert_eq!(consumed, first_len);
            match decode_frame(&wire[consumed..]) {
                DecodeResult::Frame { payload, .. } => assert_eq!(payload, b"two!".to_vec()),
                other => panic!("expected the second frame, got {:?}", other),
            }
        }
        other => panic!("expected the first frame, got {:?}", other),
    }
}

#[test]
fn payload_with_embedded_header_text_survives() {
    let payload = b"{\"a\":\"\r\n\r\nContent-Length: 3\r\n\r\n\"}";
    let wire = encode_frame(payload);
    match decode_frame(&wire) {
        DecodeResult::Frame { payload: got, consumed } => {
            assert_eq!(got, payload.to_vec());
            assert_eq!(consumed, wire.len());
        }
        other => panic!("expected a frame, got {:?}", other),
    }
}
