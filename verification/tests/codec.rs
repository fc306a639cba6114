use braid_iroh::errors::BraidError;
use braid_iroh::protocol::{decode, encode, UpdateFrame, FRAME_VERSION};

fn sample_frame() -> UpdateFrame {
    UpdateFrame {
        origin: vec![9u8; 32],
        token: 7,
        path: "/doc1".as_bytes().to_vec(),
        payload: vec![104, 101, 108, 108, 111],
    }
}

#[test]
fn round_trip_preserves_every_field() {
    let frame = sample_frame();
    let bytes = encode(&frame);
    let back = decode(&bytes).expect("a frame must come back from its own bytes");
    assert_eq!(back.origin, vec![9u8; 32]);
    assert_eq!(back.token, 7);
    assert_eq!(back.path, "/doc1".as_bytes().to_vec());
    assert_eq!(back.payload, vec![104, 101, 108, 108, 111]);
}

#[test]
fn encoding_is_deterministic() {
    let a = encode(&sample_frame());
    let b = encode(&sample_frame());
    assert_eq!(a, b);
}

#[test]
fn exact_wire_layout() {
    let frame = UpdateFrame {
        origin: vec![3u8; 32],
        token: 258,
        path: vec![47, 97],
        payload: vec![120],
    };
    let bytes = encode(&frame);
    let mut expected: Vec<u8> = Vec::new();
    expected.push(FRAME_VERSION);
    expected.extend_from_slice(&[3u8; 32]);
    expected.extend_from_slice(&258u64.to_le_bytes());
    expected.extend_from_slice(&2u16.to_le_bytes());
    expected.extend_from_slice(&[47, 97]);
    expected.extend_from_slice(&1u32.to_le_bytes());
    expected.push(120);
    assert_eq!(bytes, expected);
}

#[test]
fn overlong_declared_payload_is_truncated_frame() {
    let frame = sample_frame();
    let mut bytes = encode(&frame);
    // Drop the final payload byte: the declared length now exceeds the content.
    bytes.pop();
    assert_eq!(decode(&bytes), Err(BraidError::TruncatedFrame));
}

#[test]
fn declared_payload_shorter_than_content_is_truncated_frame() {
    let frame = sample_frame();
    let mut bytes = encode(&frame);
    bytes.push(0);
    assert_eq!(decode(&bytes), Err(BraidError::TruncatedFrame));
}

#[test]
fn short_input_is_malformed() {
    assert_eq!(decode(&[]), Err(BraidError::MalformedFrame));
    assert_eq!(decode(&[FRAME_VERSION; 10]), Err(BraidError::MalformedFrame));
}

#[test]
fn wrong_version_is_malformed() {
    let mut bytes = encode(&sample_frame());
    bytes[0] = FRAME_VERSION.wrapping_add(1);
    assert_eq!(decode(&bytes), Err(BraidError::MalformedFrame));
}

#[test]
fn empty_path_on_the_wire_is_malformed() {
    let mut bytes: Vec<u8> = Vec::new();
    bytes.push(FRAME_VERSION);
    bytes.extend_from_slice(&[0u8; 32]);
    bytes.extend_from_slice(&0u64.to_le_bytes());
    bytes.extend_from_slice(&0u16.to_le_bytes());
    bytes.extend_from_slice(&0u32.to_le_bytes());
    assert_eq!(decode(&bytes), Err(BraidError::MalformedFrame));
}
