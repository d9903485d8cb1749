use kiri::frames::{decode_response, encode_request, encode_response};

#[test]
fn request_frame_layout() {
    let frame = encode_request(0, "/users/42", b"abc");
    let mut expected: Vec<u8> = vec![0, 9, 0, 0, 0];
    expected.extend_from_slice(b"/users/42");
    expected.extend_from_slice(&[3, 0, 0, 0]);
    expected.extend_from_slice(b"abc");
    assert_eq!(frame, expected);
}

#[test]
fn request_frame_empty_path_and_body() {
    assert_eq!(encode_request(255, "", b""), vec![255, 0, 0, 0, 0, 0, 0, 0, 0]);
}

#[test]
fn request_frame_length_is_little_endian() {
    let body = vec![7u8; 0x0102];
    let frame = encode_request(0, "/", &body);
    assert_eq!(&frame[0..6], &[0, 1, 0, 0, 0, b'/']);
    assert_eq!(&frame[6..10], &[0x02, 0x01, 0, 0]);
    assert_eq!(frame.len(), 10 + 0x0102);
}

#[test]
fn response_frame_layout() {
    assert_eq!(encode_response(200, b"hi"), vec![200, 0, 2, 0, 0, 0, b'h', b'i']);
    assert_eq!(encode_response(0x1234, b""), vec![0x34, 0x12, 0, 0, 0, 0]);
}

#[test]
fn decode_response_reads_status_and_body() {
    let frame = vec![0xf4, 0x01, 3, 0, 0, 0, b'a', b'b', b'c'];
    assert_eq!(decode_response(&frame), Some((500, b"abc".to_vec())));
}

#[test]
fn decode_response_ignores_trailing_bytes() {
    let frame = vec![200, 0, 1, 0, 0, 0, b'x', b'y', b'z'];
    assert_eq!(decode_response(&frame), Some((200, b"x".to_vec())));
}

#[test]
fn response_round_trip() {
    for (status, body) in [(200u16, b"hi".to_vec()), (404, Vec::new()), (65535, vec![0u8; 300]), (0, vec![1, 2, 3])] {
        let frame = encode_response(status, &body);
        assert_eq!(decode_response(&frame), Some((status, body)));
    }
}

#[test]
fn decode_response_short_header_is_none() {
    assert_eq!(decode_response(&[]), None);
    assert_eq!(decode_response(&[200, 0, 0, 0, 0]), None);
}

#[test]
fn decode_response_truncated_prefixes_are_none() {
    let frame = encode_response(201, b"hello");
    for k in 0..frame.len() {
        assert_eq!(decode_response(&frame[..k]), None, "prefix of length {}", k);
    }
    assert_eq!(decode_response(&frame), Some((201, b"hello".to_vec())));
}

#[test]
fn decode_response_huge_declared_length_is_none() {
    assert_eq!(decode_response(&[200, 0, 0xff, 0xff, 0xff, 0xff, 1, 2]), None);
}
