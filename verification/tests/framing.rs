use voicetabs::framing::{
    decode_frame_len, prefix_progress, read_frame, read_frame_body, read_frame_len, write_frame,
    FrameError, PrefixProgress, MAX_FRAME_BYTES,
};

#[test]
fn frame_round_trip() {
    let mut buf = Vec::new();
    write_frame(&mut buf, b"hello").unwrap();
    assert_eq!(buf, vec![5, 0, 0, 0, b'h', b'e', b'l', b'l', b'o']);
    assert_eq!(read_frame(&buf), Ok(Some(b"hello".to_vec())));
}

#[test]
fn two_frames_read_back_in_order() {
    let mut buf = Vec::new();
    write_frame(&mut buf, b"ab").unwrap();
    write_frame(&mut buf, b"").unwrap();
    write_frame(&mut buf, b"xyz").unwrap();
    let first = read_frame(&buf).unwrap().unwrap();
    assert_eq!(first, b"ab".to_vec());
    let rest = &buf[4 + first.len()..];
    assert_eq!(read_frame(rest), Ok(Some(Vec::new())));
    let rest = &rest[4..];
    assert_eq!(read_frame(rest), Ok(Some(b"xyz".to_vec())));
    assert_eq!(read_frame(&rest[7..]), Ok(None));
}

#[test]
fn empty_input_is_clean_end() {
    assert_eq!(read_frame(&[]), Ok(None));
    assert_eq!(read_frame_len(&[]), Ok(None));
}

#[test]
fn truncated_prefix_is_error() {
    assert_eq!(read_frame(&[1, 0]), Err(FrameError::UnexpectedEof));
    assert_eq!(read_frame_len(&[1, 0, 0]), Err(FrameError::UnexpectedEof));
}

#[test]
fn truncated_body_is_error() {
    assert_eq!(read_frame(&[3, 0, 0, 0, 1, 2]), Err(FrameError::UnexpectedEof));
    assert_eq!(read_frame_body(&[1, 2], 3), Err(FrameError::UnexpectedEof));
    assert_eq!(read_frame_body(&[1, 2, 3, 4], 3), Ok(vec![1, 2, 3]));
}

#[test]
fn oversized_length_is_refused() {
    let too_big = MAX_FRAME_BYTES + 1;
    let prefix = too_big.to_le_bytes();
    assert_eq!(read_frame_len(&prefix), Err(FrameError::TooLarge(too_big)));
    assert_eq!(decode_frame_len(&prefix), Err(FrameError::TooLarge(too_big)));
    assert_eq!(decode_frame_len(&MAX_FRAME_BYTES.to_le_bytes()), Ok(MAX_FRAME_BYTES));
    assert_eq!(read_frame(&[0xff, 0xff, 0xff, 0xff]), Err(FrameError::TooLarge(u32::MAX)));
}

#[test]
fn length_prefix_is_little_endian() {
    assert_eq!(read_frame_len(&[0x01, 0x02, 0x00, 0x00, 9]), Ok(Some(0x0201)));
}

#[test]
fn prefix_progress_steps() {
    assert_eq!(prefix_progress(0, 0), PrefixProgress::CleanEof);
    assert_eq!(prefix_progress(2, 0), PrefixProgress::Truncated);
    assert_eq!(prefix_progress(1, 2), PrefixProgress::Advanced(3));
    assert_eq!(prefix_progress(0, 4), PrefixProgress::Advanced(4));
}

#[test]
fn write_refuses_oversized_payload_and_leaves_buffer() {
    let payload = vec![0u8; MAX_FRAME_BYTES as usize + 1];
    let mut buf = vec![7u8];
    assert_eq!(
        write_frame(&mut buf, &payload),
        Err(FrameError::TooLarge(MAX_FRAME_BYTES + 1))
    );
    assert_eq!(buf, vec![7u8]);
}
