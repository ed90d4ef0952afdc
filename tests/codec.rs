use h2_framing::codec::{
    parse_frame_header, u24_from_be_bytes, write_frame, write_preface, EncodeError, FrameHeader,
};
use h2_framing::flags::{FlagSet, Flags};
use h2_framing::frame_type::{FrameType, FrameTypeRaw};

fn encode(t: FrameType, flags: FlagSet, sid: u32, r: bool, payload: &[u8]) -> Vec<u8> {
    let mut w = Vec::new();
    write_frame(&mut w, t, flags, sid, r, payload).unwrap();
    w
}

#[test]
fn round_trip_every_field() {
    let flags = FlagSet::only(Flags::EndHeaders).union(FlagSet::only(Flags::EndStream));
    let payload = [1u8, 2, 3, 4, 5];
    for &(t, sid, r) in &[
        (FrameType::Headers, 1u32, false),
        (FrameType::Data, 0x7FFF_FFFF, true),
        (FrameType::Continuation, 0x0123_4567, true),
        (FrameType::Settings, 0, false),
    ] {
        let w = encode(t, flags, sid, r, &payload);
        assert_eq!(w.len(), 9 + payload.len());
        let h = parse_frame_header(&w);
        assert_eq!(
            h,
            FrameHeader {
                len: 5,
                frame_type: FrameTypeRaw::Known(t),
                flags: 0x05,
                stream_ident: sid,
                r,
            }
        );
        assert_eq!(&w[9..], &payload[..]);
    }
}

#[test]
fn encode_exact_bytes() {
    let w = encode(FrameType::Ping, FlagSet::only(Flags::EndStream), 0x0102_0304, true, &[7, 9]);
    assert_eq!(w, vec![0, 0, 2, 6, 1, 0x81, 2, 3, 4, 7, 9]);
}

#[test]
fn largest_payload_is_accepted() {
    let payload = vec![0xABu8; 0xFF_FFFF];
    let mut w = Vec::new();
    assert_eq!(write_frame(&mut w, FrameType::Data, FlagSet::empty(), 3, false, &payload), Ok(()));
    assert_eq!(&w[0..3], &[0xFF, 0xFF, 0xFF]);
    assert_eq!(w.len(), 9 + 0xFF_FFFF);
    assert_eq!(parse_frame_header(&w).len, 0xFF_FFFF);
}

#[test]
fn oversized_payload_is_refused_without_output() {
    let payload = vec![0u8; 0x100_0000];
    let mut w = vec![42u8];
    assert_eq!(
        write_frame(&mut w, FrameType::Data, FlagSet::empty(), 3, false, &payload),
        Err(EncodeError::PayloadTooLarge)
    );
    assert_eq!(w, vec![42u8]);
}

#[test]
fn reserved_bit_in_identifier_is_refused_without_output() {
    let mut w = Vec::new();
    for sid in [0x8000_0000u32, 0xFFFF_FFFF, 0x8000_0001] {
        assert_eq!(
            write_frame(&mut w, FrameType::Headers, FlagSet::empty(), sid, false, &[1]),
            Err(EncodeError::ReservedBitSet)
        );
        assert!(w.is_empty());
    }
}

#[test]
fn reserved_bit_kept_apart_from_identifier() {
    let w = encode(FrameType::Headers, FlagSet::empty(), 0x7FFF_FFFF, true, &[]);
    let h = parse_frame_header(&w);
    assert_eq!(h.stream_ident, 0x7FFF_FFFF);
    assert!(h.r);
    let h = parse_frame_header(&[0, 0, 0, 0, 0, 0xFF, 0xFF, 0xFF, 0xFF]);
    assert_eq!(h.stream_ident, 0x7FFF_FFFF);
    assert!(h.r);
}

#[test]
fn unknown_type_byte_decodes() {
    let h = parse_frame_header(&[0, 0, 4, 0xFF, 0xF0, 0, 0, 0, 9]);
    assert_eq!(h.frame_type, FrameTypeRaw::Unknown(0xFF));
    assert_eq!(h.len, 4);
    assert_eq!(h.flags, 0xF0);
    assert_eq!(h.stream_ident, 9);
    assert!(!h.r);
    let h = parse_frame_header(&[0, 0, 0, 10, 0, 0, 0, 0, 0]);
    assert_eq!(h.frame_type, FrameTypeRaw::Unknown(10));
}

#[test]
fn header_read_from_longer_buffer() {
    let h = parse_frame_header(&[0x01, 0x02, 0x03, 7, 0x25, 0, 0, 1, 0, 0xEE, 0xEE]);
    assert_eq!(h.len, 0x01_0203);
    assert_eq!(h.frame_type, FrameTypeRaw::Known(FrameType::Goaway));
    assert_eq!(h.flags, 0x25);
    assert_eq!(h.stream_ident, 256);
}

#[test]
fn u24_value() {
    assert_eq!(u24_from_be_bytes([0x12, 0x34, 0x56]), 0x12_3456);
    assert_eq!(u24_from_be_bytes([0xFF, 0xFF, 0xFF]), 0xFF_FFFF);
    assert_eq!(u24_from_be_bytes([0, 0, 0]), 0);
}

#[test]
fn preface_is_written() {
    let mut buf = vec![1u8];
    write_preface(&mut buf);
    let mut expected = vec![1u8];
    expected.extend_from_slice(b"PRI * HTTP/2.0\r\n\r\nSM\r\n\r\n");
    assert_eq!(buf, expected);
}

#[test]
fn frame_type_codes() {
    let all = [
        FrameType::Data,
        FrameType::Headers,
        FrameType::Priority,
        FrameType::RstStream,
        FrameType::Settings,
        FrameType::PushPromise,
        FrameType::Ping,
        FrameType::Goaway,
        FrameType::WindowUpdate,
        FrameType::Continuation,
    ];
    for (i, t) in all.iter().enumerate() {
        assert_eq!(t.code(), i as u8);
        assert_eq!(FrameType::from_code(i as u8), Some(*t));
        assert_eq!(FrameTypeRaw::from_u8(i as u8), FrameTypeRaw::Known(*t));
    }
    assert_eq!(FrameType::from_code(10), None);
    assert_eq!(FrameTypeRaw::from_u8(0x80).code(), 0x80);
}
