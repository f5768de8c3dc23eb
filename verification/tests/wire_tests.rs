use distributed_channel::wire::{
    decode_length, encode_frame, encode_length, payload_len, read_frame, WireError,
    MAX_MESSAGE_SIZE,
};

#[test]
fn max_message_size_is_16_mib() {
    assert_eq!(MAX_MESSAGE_SIZE, 16 * 1024 * 1024);
}

#[test]
fn length_is_little_endian() {
    assert_eq!(encode_length(0x0403_0201), [1, 2, 3, 4]);
    assert_eq!(encode_length(0), [0, 0, 0, 0]);
    assert_eq!(encode_length(u32::MAX), [255, 255, 255, 255]);
    assert_eq!(decode_length([1, 2, 3, 4]), 0x0403_0201);
    assert_eq!(decode_length([0x10, 0, 0, 0]), 16);
}

#[test]
fn length_roundtrip() {
    for n in [0u32, 1, 255, 256, 65535, 65536, 16_777_216, 0xdead_beef, u32::MAX] {
        assert_eq!(decode_length(encode_length(n)), n);
        assert_eq!(encode_length(n), n.to_le_bytes());
    }
}

#[test]
fn frame_is_prefix_then_payload() {
    let out = encode_frame(&[7, 8, 9]).unwrap();
    assert_eq!(out, vec![3, 0, 0, 0, 7, 8, 9]);
    assert_eq!(encode_frame(&[]).unwrap(), vec![0, 0, 0, 0]);
}

#[test]
fn frame_of_300_bytes() {
    let payload = vec![0xabu8; 300];
    let out = encode_frame(&payload).unwrap();
    assert_eq!(&out[..4], &[44, 1, 0, 0]);
    assert_eq!(&out[4..], &payload[..]);
}

#[test]
fn read_gives_back_written_payload() {
    let payload = b"hello, producer".to_vec();
    let mut buf = encode_frame(&payload).unwrap();
    buf.extend_from_slice(&[1, 2, 3]);
    let (got, used) = read_frame(&buf).unwrap();
    assert_eq!(got, payload);
    assert_eq!(used, payload.len() + 4);
}

#[test]
fn two_frames_in_a_row() {
    let mut buf = encode_frame(b"first").unwrap();
    buf.extend(encode_frame(b"second!").unwrap());
    let (a, used) = read_frame(&buf).unwrap();
    assert_eq!(a, b"first".to_vec());
    let (b, used2) = read_frame(&buf[used..]).unwrap();
    assert_eq!(b, b"second!".to_vec());
    assert_eq!(used + used2, buf.len());
}

#[test]
fn payload_len_accepts_up_to_limit() {
    assert_eq!(payload_len([0, 0, 0, 1]), Ok(MAX_MESSAGE_SIZE));
    assert_eq!(payload_len([5, 0, 0, 0]), Ok(5));
}

#[test]
fn payload_len_refuses_oversized() {
    assert_eq!(payload_len([1, 0, 0, 1]), Err(WireError::TooLarge(MAX_MESSAGE_SIZE + 1)));
    assert_eq!(payload_len([255, 255, 255, 255]), Err(WireError::TooLarge(u32::MAX as usize)));
}

#[test]
fn read_frame_refuses_oversized_before_reading_payload() {
    assert_eq!(read_frame(&[1, 0, 0, 1]), Err(WireError::TooLarge(MAX_MESSAGE_SIZE + 1)));
}

#[test]
fn read_frame_truncated() {
    assert_eq!(read_frame(&[]), Err(WireError::Truncated));
    assert_eq!(read_frame(&[3, 0, 0]), Err(WireError::Truncated));
    assert_eq!(read_frame(&[3, 0, 0, 0, 1, 2]), Err(WireError::Truncated));
}

#[test]
fn empty_payload_reads_back() {
    assert_eq!(read_frame(&[0, 0, 0, 0]), Ok((vec![], 4)));
}

#[test]
fn frame_of_largest_payload_announces_its_length() {
    let payload = vec![1u8; MAX_MESSAGE_SIZE];
    let out = encode_frame(&payload).unwrap();
    assert_eq!(&out[..4], &[0, 0, 0, 1]);
    assert_eq!(out.len(), MAX_MESSAGE_SIZE + 4);
    let (got, used) = read_frame(&out).unwrap();
    assert_eq!(got.len(), MAX_MESSAGE_SIZE);
    assert_eq!(used, out.len());
}

#[test]
fn payload_over_reader_limit_is_framed_but_not_read() {
    let payload = vec![0u8; MAX_MESSAGE_SIZE + 1];
    let out = encode_frame(&payload).unwrap();
    assert_eq!(&out[..4], &[1, 0, 0, 1]);
    assert_eq!(out.len(), MAX_MESSAGE_SIZE + 5);
    assert_eq!(read_frame(&out), Err(WireError::TooLarge(MAX_MESSAGE_SIZE + 1)));
}
