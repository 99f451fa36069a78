use fskit_rs::framing::{encode_frame, next_frame, split_frames, FrameStep};
use fskit_rs::varint::{read_varint, write_varint};

fn varint_bytes(value: u64) -> Vec<u8> {
    let mut buf = Vec::new();
    write_varint(value, &mut buf);
    buf
}

#[test]
fn varint_known_encodings() {
    assert_eq!(varint_bytes(0), vec![0x00]);
    assert_eq!(varint_bytes(1), vec![0x01]);
    assert_eq!(varint_bytes(127), vec![0x7F]);
    assert_eq!(varint_bytes(128), vec![0x80, 0x01]);
    assert_eq!(varint_bytes(300), vec![0xAC, 0x02]);
    assert_eq!(varint_bytes(16383), vec![0xFF, 0x7F]);
    assert_eq!(varint_bytes(16384), vec![0x80, 0x80, 0x01]);
    assert_eq!(
        varint_bytes(u64::MAX),
        vec![0xFF, 0xFF, 0xFF, 0xFF, 0xFF, 0xFF, 0xFF, 0xFF, 0xFF, 0x01]
    );
}

#[test]
fn varint_appends_to_existing_bytes() {
    let mut buf = vec![9, 9];
    write_varint(300, &mut buf);
    assert_eq!(buf, vec![9, 9, 0xAC, 0x02]);
}

#[test]
fn varint_reads_value_and_length() {
    assert_eq!(read_varint(&[0xAC, 0x02, 0x55]).unwrap(), (300, 2));
    assert_eq!(read_varint(&[0x05]).unwrap(), (5, 1));
    let max = [0xFF, 0xFF, 0xFF, 0xFF, 0xFF, 0xFF, 0xFF, 0xFF, 0xFF, 0x01];
    assert_eq!(read_varint(&max).unwrap(), (u64::MAX, 10));
}

#[test]
fn varint_roundtrip_examples() {
    for value in [0u64, 1, 127, 128, 300, 1 << 21, (1 << 35) + 17, u64::MAX - 1, u64::MAX] {
        let mut buf = varint_bytes(value);
        let len = buf.len();
        buf.extend_from_slice(&[0xAA, 0xBB]);
        assert_eq!(read_varint(&buf).unwrap(), (value, len));
    }
}

#[test]
fn varint_rejects_bad_input() {
    assert!(read_varint(&[]).is_err());
    assert!(read_varint(&[0x80]).is_err());
    assert!(read_varint(&[0xFF, 0xFF]).is_err());
    let overflow = [0xFF, 0xFF, 0xFF, 0xFF, 0xFF, 0xFF, 0xFF, 0xFF, 0xFF, 0x02];
    assert!(read_varint(&overflow).is_err());
    let too_long = [0x80; 11];
    assert!(read_varint(&too_long).is_err());
}

#[test]
fn frame_prefixes_length() {
    assert_eq!(encode_frame(&[1, 2, 3]), vec![3, 1, 2, 3]);
    assert_eq!(encode_frame(&[]), vec![0]);
    let body = vec![7u8; 200];
    let frame = encode_frame(&body);
    assert_eq!(&frame[..2], &[0xC8, 0x01]);
    assert_eq!(frame.len(), 202);
}

#[test]
fn next_frame_cases() {
    match next_frame(&[3, 1, 2, 3, 9]) {
        FrameStep::Frame { header_len, body_len } => {
            assert_eq!((header_len, body_len), (1, 3));
        }
        other => panic!("unexpected {other:?}"),
    }
    assert!(matches!(next_frame(&[5, 1, 2]), FrameStep::Incomplete));
    assert!(matches!(next_frame(&[0x80]), FrameStep::Incomplete));
    assert!(matches!(next_frame(&[0xFF; 9]), FrameStep::Incomplete));
    assert!(matches!(next_frame(&[0xFF; 10]), FrameStep::Corrupt(_)));
    let overflow = [0xFF, 0xFF, 0xFF, 0xFF, 0xFF, 0xFF, 0xFF, 0xFF, 0xFF, 0x02];
    assert!(matches!(next_frame(&overflow), FrameStep::Corrupt(_)));
}

#[test]
fn split_frames_reads_stream() {
    let mut stream = encode_frame(b"abc");
    stream.extend(encode_frame(b""));
    stream.extend(encode_frame(&[0u8; 130]));
    let partial = encode_frame(b"hello");
    stream.extend_from_slice(&partial[..3]);
    let batch = split_frames(&stream);
    assert!(batch.corrupt.is_none());
    let bodies: Vec<&[u8]> = batch
        .frames
        .iter()
        .map(|f| &stream[f.start + f.header_len..f.start + f.header_len + f.body_len])
        .collect();
    assert_eq!(bodies.len(), 3);
    assert_eq!(bodies[0], b"abc");
    assert_eq!(bodies[1], b"");
    assert_eq!(bodies[2], &[0u8; 130][..]);
    assert_eq!(batch.consumed, 4 + 1 + 132);
    assert_eq!(&stream[batch.consumed..], &partial[..3]);
}

#[test]
fn split_frames_stops_at_corrupt_prefix() {
    let mut stream = encode_frame(b"ok");
    stream.extend_from_slice(&[0xFF; 11]);
    let batch = split_frames(&stream);
    assert_eq!(batch.frames.len(), 1);
    assert_eq!(batch.consumed, 3);
    assert!(batch.corrupt.is_some());
}

#[test]
fn split_frames_cut_inside_long_prefix_waits() {
    let frame = encode_frame(&[1u8; 300]);
    let batch = split_frames(&frame[..1]);
    assert_eq!(batch.frames.len(), 0);
    assert_eq!(batch.consumed, 0);
    assert!(batch.corrupt.is_none());
}

/// Serves a stream cut into reads the way a connection does: after each
/// read, the complete frames are served and the rest is kept.
fn serve(reads: &[&[u8]]) -> (Vec<Vec<u8>>, Vec<u8>, bool) {
    let mut buffer: Vec<u8> = Vec::new();
    let mut served = Vec::new();
    for read in reads {
        buffer.extend_from_slice(read);
        let batch = split_frames(&buffer);
        for f in &batch.frames {
            served.push(buffer[f.start + f.header_len..f.start + f.header_len + f.body_len].to_vec());
        }
        if batch.corrupt.is_some() {
            return (served, buffer[batch.consumed..].to_vec(), true);
        }
        buffer.drain(..batch.consumed);
    }
    (served, buffer, false)
}

#[test]
fn reads_split_anywhere_serve_the_same() {
    let mut stream = encode_frame(b"first");
    stream.extend(encode_frame(&[5u8; 300]));
    stream.extend(encode_frame(b""));
    stream.extend(encode_frame(&[9u8; 140])[..60].to_vec());
    let whole = serve(&[&stream]);
    assert_eq!(whole.0.len(), 3);
    assert!(!whole.2);
    for cut in 0..stream.len() {
        let (a, b) = stream.split_at(cut);
        assert_eq!(serve(&[a, b]), whole, "cut at {cut}");
    }
    let bytes: Vec<&[u8]> = stream.chunks(1).collect();
    assert_eq!(serve(&bytes), whole);
}

#[test]
fn split_frames_empty_buffer() {
    let batch = split_frames(&[]);
    assert!(batch.frames.is_empty());
    assert_eq!(batch.consumed, 0);
    assert!(batch.corrupt.is_none());
}
