use sada::frame::{
    after_decode, after_encode, after_payload, after_prefix, after_write, decode_frame_length,
    encode_frame_length, ControlFrameBuffer, Error, PrefixRead, WriteStep, FRAME_PREFIX_LEN,
    MAX_CONTROL_FRAME_LEN,
};

type FrameError = Error<String>;

#[test]
fn prefix_is_little_endian_length() {
    let prefix = encode_frame_length::<String>(0x0102_0304).unwrap();
    assert_eq!(prefix, vec![0x04, 0x03, 0x02, 0x01]);
    assert_eq!(prefix.len(), FRAME_PREFIX_LEN);
}

#[test]
fn prefix_roundtrips_for_accepted_lengths() {
    for len in [0usize, 1, 7, 255, 256, 4096, MAX_CONTROL_FRAME_LEN] {
        let prefix = encode_frame_length::<String>(len).unwrap();
        let decoded = decode_frame_length::<String>(&prefix).unwrap();
        assert_eq!(decoded, len);
    }
}

#[test]
fn prefix_too_large_for_u32_is_refused() {
    if usize::BITS > 32 {
        let len = (u32::MAX as usize) + 1;
        match encode_frame_length::<String>(len) {
            Err(FrameError::EncodeFrameTooLarge(_)) => {},
            other => panic!("unexpected {other:?}"),
        }
    }
}

#[test]
fn oversized_frame_is_refused_with_its_length() {
    let prefix = [0x01, 0x00, 0x01, 0x00];
    match decode_frame_length::<String>(&prefix) {
        Err(FrameError::ControlFrameTooLarge(n)) => assert_eq!(n, MAX_CONTROL_FRAME_LEN + 1),
        other => panic!("unexpected {other:?}"),
    }
}

#[test]
fn after_prefix_covers_every_outcome() {
    match after_prefix::<String>(PrefixRead::Filled([5, 0, 0, 0])) {
        Ok(Some(5)) => {},
        other => panic!("unexpected {other:?}"),
    }
    match after_prefix::<String>(PrefixRead::EndOfStream) {
        Ok(None) => {},
        other => panic!("unexpected {other:?}"),
    }
    let failure = std::io::Error::new(std::io::ErrorKind::BrokenPipe, "gone");
    match after_prefix::<String>(PrefixRead::Failed(failure)) {
        Err(FrameError::ReadFrameLength(e)) => assert_eq!(e.kind(), std::io::ErrorKind::BrokenPipe),
        other => panic!("unexpected {other:?}"),
    }
    match after_prefix::<String>(PrefixRead::Filled([0xff, 0xff, 0xff, 0xff])) {
        Err(FrameError::ControlFrameTooLarge(n)) => assert_eq!(n, u32::MAX as usize),
        other => panic!("unexpected {other:?}"),
    }
}

#[test]
fn payload_and_codec_errors_are_mapped() {
    assert!(matches!(after_payload::<String>(9, Ok(())), Ok(9)));
    let failure = std::io::Error::new(std::io::ErrorKind::UnexpectedEof, "short");
    assert!(matches!(after_payload::<String>(9, Err(failure)), Err(FrameError::ReadFramePayload(_))));
    assert!(matches!(after_decode::<u8, String>(Ok(3)), Ok(Some(3))));
    match after_decode::<u8, String>(Err("bad".to_owned())) {
        Err(FrameError::Postcard(text)) => assert_eq!(text, "bad"),
        other => panic!("unexpected {other:?}"),
    }
    assert!(matches!(after_encode::<String>(Ok(12)), Ok(12)));
    assert!(matches!(after_encode::<String>(Err("full".to_owned())), Err(FrameError::Postcard(_))));
}

#[test]
fn write_steps_name_their_failures() {
    let io = || std::io::Error::new(std::io::ErrorKind::BrokenPipe, "gone");
    assert!(matches!(after_write::<String>(WriteStep::Prefix, Err(io())), Err(FrameError::WriteFrameLength(_))));
    assert!(matches!(after_write::<String>(WriteStep::Payload, Err(io())), Err(FrameError::WriteFramePayload(_))));
    assert!(matches!(after_write::<String>(WriteStep::Flush, Err(io())), Err(FrameError::Flush(_))));
    assert!(matches!(after_write::<String>(WriteStep::Flush, Ok(())), Ok(())));
}

#[test]
fn buffer_starts_zeroed_and_returns_stored_payload() {
    let mut buffer = ControlFrameBuffer::new();
    assert!(buffer.payload(MAX_CONTROL_FRAME_LEN).iter().all(|b| *b == 0));
    let storage = buffer.storage_mut();
    storage[..4].copy_from_slice(b"sefa");
    assert_eq!(buffer.payload(4), b"sefa");
    assert_eq!(buffer.payload(0), b"");
    let default = ControlFrameBuffer::default();
    assert_eq!(default.payload(3), &[0, 0, 0]);
}

#[test]
fn written_frame_reads_back() {
    let payload = b"\x01\x04sefa\x01".to_vec();
    let mut wire = encode_frame_length::<String>(payload.len()).unwrap();
    wire.extend_from_slice(&payload);
    let mut prefix = [0u8; 4];
    prefix.copy_from_slice(&wire[..4]);
    let len = after_prefix::<String>(PrefixRead::Filled(prefix)).unwrap().unwrap();
    let mut buffer = ControlFrameBuffer::new();
    buffer.storage_mut()[..len].copy_from_slice(&wire[4..4 + len]);
    assert_eq!(buffer.payload(len), payload.as_slice());
}

#[test]
fn frames_on_one_connection_read_back_in_order() {
    let payloads: Vec<Vec<u8>> = vec![b"first".to_vec(), Vec::new(), b"third frame".to_vec()];
    let mut wire = Vec::new();
    for payload in &payloads {
        wire.extend(encode_frame_length::<String>(payload.len()).unwrap());
        wire.extend_from_slice(payload);
    }
    let mut rest = wire.as_slice();
    let mut read = Vec::new();
    while !rest.is_empty() {
        let mut prefix = [0u8; 4];
        prefix.copy_from_slice(&rest[..FRAME_PREFIX_LEN]);
        let len = after_prefix::<String>(PrefixRead::Filled(prefix)).unwrap().unwrap();
        read.push(rest[FRAME_PREFIX_LEN..FRAME_PREFIX_LEN + len].to_vec());
        rest = &rest[FRAME_PREFIX_LEN + len..];
    }
    assert_eq!(read, payloads);
    assert!(matches!(after_prefix::<String>(PrefixRead::EndOfStream), Ok(None)));
}
