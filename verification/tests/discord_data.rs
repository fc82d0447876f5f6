use rphide::discord_data::{parse_header, DiscordData, FrameError, OpCode};

fn header_of(bytes: &[u8]) -> [u8; 8] {
    let mut h = [0u8; 8];
    h.copy_from_slice(&bytes[..8]);
    h
}

#[test]
fn as_bytes_writes_native_header_then_payload() {
    let d = DiscordData::from(OpCode::Frame, "hi");
    let b = d.as_bytes();
    assert_eq!(b.len(), 10);
    assert_eq!(&b[0..4], &1u32.to_ne_bytes());
    assert_eq!(&b[4..8], &2u32.to_ne_bytes());
    assert_eq!(&b[8..], b"hi");
}

#[test]
fn from_counts_payload_bytes_not_chars() {
    let d = DiscordData::from(OpCode::Ping, "héllo");
    let b = d.as_bytes();
    assert_eq!(&b[0..4], &3u32.to_ne_bytes());
    assert_eq!(&b[4..8], &6u32.to_ne_bytes());
    assert_eq!(&b[8..], "héllo".as_bytes());
}

#[test]
fn empty_payload_frame() {
    let d = DiscordData::from(OpCode::HandShake, "");
    let b = d.as_bytes();
    assert_eq!(b, vec![0u8, 0, 0, 0, 0, 0, 0, 0]);
}

#[test]
fn frame_roundtrip_through_header_and_body() {
    for (op, text) in [
        (OpCode::HandShake, "{\"v\":1}"),
        (OpCode::Frame, "payload"),
        (OpCode::Close, ""),
        (OpCode::Ping, "ü"),
        (OpCode::Pong, "pong"),
    ] {
        let d = DiscordData::from(op, text);
        let bytes = d.as_bytes();
        let back = DiscordData::from_parts(&header_of(&bytes), bytes[8..].to_vec()).unwrap();
        assert_eq!(back.as_bytes(), bytes);
    }
}

#[test]
fn parse_header_reads_opcode_and_length() {
    let mut h = [0u8; 8];
    h[..4].copy_from_slice(&4u32.to_ne_bytes());
    h[4..].copy_from_slice(&300u32.to_ne_bytes());
    let header = parse_header(&h);
    assert_eq!(header.opcode, OpCode::Pong);
    assert_eq!(header.length, 300);
}

#[test]
fn unknown_opcode_reads_as_handshake() {
    let mut h = [0u8; 8];
    h[..4].copy_from_slice(&7u32.to_ne_bytes());
    assert_eq!(parse_header(&h).opcode, OpCode::HandShake);
    assert_eq!(OpCode::from_code(99), OpCode::HandShake);
    assert_eq!(OpCode::from_code(2), OpCode::Close);
    assert_eq!(OpCode::Pong.code(), 4);
}

#[test]
fn from_parts_keeps_header_length_and_decodes_body() {
    let mut h = [0u8; 8];
    h[..4].copy_from_slice(&1u32.to_ne_bytes());
    h[4..].copy_from_slice(&3u32.to_ne_bytes());
    let d = DiscordData::from_parts(&h, b"abc".to_vec()).unwrap();
    let b = d.as_bytes();
    assert_eq!(&b[0..4], &1u32.to_ne_bytes());
    assert_eq!(&b[4..8], &3u32.to_ne_bytes());
    assert_eq!(&b[8..], b"abc");
}

#[test]
fn from_parts_rejects_invalid_utf8() {
    let mut h = [0u8; 8];
    h[4..].copy_from_slice(&2u32.to_ne_bytes());
    let r = DiscordData::from_parts(&h, vec![0xff, 0xfe]);
    assert_eq!(r.unwrap_err(), FrameError::InvalidUtf8 { bytes: vec![0xff, 0xfe], valid_up_to: 0 });
    h[4..].copy_from_slice(&3u32.to_ne_bytes());
    let r = DiscordData::from_parts(&h, vec![0xed, 0xa0, 0x80]);
    assert_eq!(
        r.unwrap_err(),
        FrameError::InvalidUtf8 { bytes: vec![0xed, 0xa0, 0x80], valid_up_to: 0 }
    );
    let r = DiscordData::from_parts(&h, vec![b'a', b'b', 0xff]);
    assert_eq!(
        r.unwrap_err(),
        FrameError::InvalidUtf8 { bytes: vec![b'a', b'b', 0xff], valid_up_to: 2 }
    );
    h[4..].copy_from_slice(&4u32.to_ne_bytes());
    let r = DiscordData::from_parts(&h, vec![b'x', 0xc3, 0xa9, 0xc3]);
    assert_eq!(
        r.unwrap_err(),
        FrameError::InvalidUtf8 { bytes: vec![b'x', 0xc3, 0xa9, 0xc3], valid_up_to: 3 }
    );
}

#[test]
fn from_parts_length_agrees_with_payload() {
    let text = "größe";
    let mut h = [0u8; 8];
    h[..4].copy_from_slice(&1u32.to_ne_bytes());
    h[4..].copy_from_slice(&(text.len() as u32).to_ne_bytes());
    let d = DiscordData::from_parts(&h, text.as_bytes().to_vec()).unwrap();
    let b = d.as_bytes();
    assert_eq!(b.len(), 8 + text.len());
    assert_eq!(&b[4..8], &7u32.to_ne_bytes());
    assert_eq!(&b[8..], text.as_bytes());
}
