use core_challenges::frame::{
    frame_header, payload_length, read_frame, write_frame, FrameError, HEADER_LEN,
};
use core_challenges::wire::WireError;
use core_challenges::{Challenge, P2PMessage, Solution};

#[test]
fn the_header_is_big_endian() {
    assert_eq!(HEADER_LEN, 4);
    assert_eq!(frame_header(0), [0, 0, 0, 0]);
    assert_eq!(frame_header(1), [0, 0, 0, 1]);
    assert_eq!(frame_header(256), [0, 0, 1, 0]);
    assert_eq!(frame_header(0x0102_0304), [1, 2, 3, 4]);
    assert_eq!(frame_header(u32::MAX), [255, 255, 255, 255]);
    assert_eq!(payload_length(&[0, 0, 1, 0]), 256);
    assert_eq!(payload_length(&[1, 2, 3, 4]), 0x0102_0304);
    assert_eq!(payload_length(&[255, 255, 255, 255]), u32::MAX);
    for n in [0u32, 5, 255, 256, 65_535, 65_536, 1 << 24, u32::MAX] {
        assert_eq!(frame_header(n), n.to_be_bytes());
        assert_eq!(payload_length(&frame_header(n)), n);
    }
}

#[test]
fn a_frame_is_the_length_then_the_message() {
    let m = P2PMessage::YouWin("ok".to_string());
    assert_eq!(write_frame(&m), Ok(vec![0, 0, 0, 4, 2, 2, b'o', b'k']));
    let m = P2PMessage::Challenge(Challenge { name: "pow".to_string(), payload: vec![0; 300] });
    let frame = write_frame(&m).unwrap();
    assert_eq!(&frame[..4], &[0, 0, 1, 52]);
    assert_eq!(&frame[4..], &m.encode()[..]);
}

#[test]
fn a_written_frame_is_read_back() {
    let all = [
        P2PMessage::Challenge(Challenge { name: "pow".to_string(), payload: vec![1, 2, 3] }),
        P2PMessage::Challenge(Challenge { name: "pow".to_string(), payload: vec![] }),
        P2PMessage::Reply(Solution { payload: vec![7] }),
        P2PMessage::YouWin(String::new()),
    ];
    for m in all {
        let frame = write_frame(&m).unwrap();
        let size = frame.len();
        assert_eq!(read_frame(&frame), Ok((m, size)));
    }
}

#[test]
fn reading_stops_at_the_end_of_the_frame() {
    let first = P2PMessage::Reply(Solution { payload: vec![7] });
    let second = P2PMessage::YouWin("fin".to_string());
    let mut stream = write_frame(&first).unwrap();
    let first_size = stream.len();
    stream.extend_from_slice(&write_frame(&second).unwrap());
    assert_eq!(read_frame(&stream), Ok((first, first_size)));
    let rest = &stream[first_size..];
    assert_eq!(read_frame(rest), Ok((second, rest.len())));
}

#[test]
fn a_short_header_is_truncated() {
    assert_eq!(read_frame(&[]), Err(FrameError::Truncated));
    assert_eq!(read_frame(&[0]), Err(FrameError::Truncated));
    assert_eq!(read_frame(&[0, 0, 0]), Err(FrameError::Truncated));
}

#[test]
fn fewer_bytes_than_announced_is_truncated() {
    assert_eq!(read_frame(&[0, 0, 0, 9, 2, 2, b'o', b'k']), Err(FrameError::Truncated));
    assert_eq!(read_frame(&[0, 0, 0, 1]), Err(FrameError::Truncated));
    assert_eq!(read_frame(&[255, 255, 255, 255, 1, 2, 3]), Err(FrameError::Truncated));
    let frame = write_frame(&P2PMessage::YouWin("abc".to_string())).unwrap();
    for cut in 0..frame.len() {
        assert_eq!(read_frame(&frame[..cut]), Err(FrameError::Truncated));
    }
}

#[test]
fn a_payload_that_is_no_message_is_malformed() {
    assert_eq!(
        read_frame(&[0, 0, 0, 2, 9, 0]),
        Err(FrameError::Malformed(WireError::UnknownVariant(9)))
    );
    assert_eq!(read_frame(&[0, 0, 0, 0]), Err(FrameError::Malformed(WireError::BadInteger)));
    assert_eq!(
        read_frame(&[0, 0, 0, 2, 1, 5, 1, 2, 3, 4, 5]),
        Err(FrameError::Malformed(WireError::LengthOverrun))
    );
    assert_eq!(
        read_frame(&[0, 0, 0, 3, 2, 1, 0xff]),
        Err(FrameError::Malformed(WireError::BadText))
    );
}
