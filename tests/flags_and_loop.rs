use h2_framing::codec::write_frame;
use h2_framing::flags::{FlagSet, Flags};
use h2_framing::frame_type::FrameType;
use h2_framing::reader::{
    on_frame, parse_goaway, ErrorCode, Goaway, H2Error, ReadState, Termination,
};
use h2_framing::request::{build_request, get_root_header_block};
use h2_framing::codec::{parse_frame_header, EncodeError};

fn frame(t: FrameType, flags_byte: u8, payload: &[u8]) -> Vec<u8> {
    let mut w = Vec::new();
    write_frame(&mut w, t, FlagSet::from_u8_truncated(flags_byte), 0, false, payload).unwrap();
    w
}

/// Runs the loop's decisions over an in-memory stream; returns the final
/// state, the bytes consumed and the frames read.
fn drive(input: &[u8]) -> (ReadState, usize, usize) {
    let mut s = ReadState::new();
    let mut at = 0;
    let mut frames = 0;
    while let Some(n) = s.bytes_wanted() {
        if at + n > input.len() {
            break;
        }
        if matches!(s, ReadState::AwaitingPayload(_)) {
            frames += 1;
        }
        s = s.step(&input[at..at + n]);
        at += n;
    }
    (s, at, frames)
}

#[test]
fn flag_set_truncates_unnamed_bits() {
    let f = FlagSet::from_u8_truncated(0xFF);
    assert_eq!(f.as_u8(), 0x05);
    assert!(f.contains(Flags::EndStream));
    assert!(f.contains(Flags::EndHeaders));
    let g = FlagSet::from_u8_truncated(0xFA);
    assert_eq!(g.as_u8(), 0);
    assert!(!g.contains(Flags::EndStream));
    assert!(!g.contains(Flags::EndHeaders));
    assert_eq!(FlagSet::from_u8_truncated(0x04), FlagSet::only(Flags::EndHeaders));
}

#[test]
fn flag_set_union() {
    let f = FlagSet::only(Flags::EndStream).union(FlagSet::only(Flags::EndHeaders));
    assert_eq!(f.as_u8(), 0x05);
    assert_eq!(FlagSet::empty().as_u8(), 0);
    assert_eq!(FlagSet::empty().union(FlagSet::only(Flags::EndStream)).as_u8(), 1);
}

#[test]
fn goaway_ends_loop_after_one_frame() {
    let mut input = frame(FrameType::Goaway, 0, &[0, 0, 0, 1, 0, 0, 0, 0]);
    input.extend_from_slice(&[0u8; 20]);
    let (s, at, frames) = drive(&input);
    assert_eq!(frames, 1);
    assert_eq!(at, 17);
    assert_eq!(
        s,
        ReadState::Finished(Termination::Goaway(Goaway {
            r: false,
            last_stream_id: 1,
            error: ErrorCode::Known(H2Error::NoError),
        }))
    );
}

#[test]
fn goaway_with_reserved_bit_and_unknown_code() {
    let g = parse_goaway(&[0x80, 0, 0, 5, 0, 0, 0, 0x2A, 0xFF]).unwrap();
    assert_eq!(g, Goaway { r: true, last_stream_id: 5, error: ErrorCode::Unknown(0x2A) });
    assert_eq!(parse_goaway(&[0, 0, 0, 1, 0, 0, 0]), None);
}

#[test]
fn short_goaway_still_ends_loop() {
    let input = frame(FrameType::Goaway, 0, &[0, 0, 1]);
    let (s, _, frames) = drive(&input);
    assert_eq!(frames, 1);
    assert_eq!(s, ReadState::Finished(Termination::MalformedGoaway));
}

#[test]
fn end_stream_data_ends_loop() {
    let mut input = frame(FrameType::Data, 0x01, &[]);
    input.extend_from_slice(&frame(FrameType::Ping, 0, &[0; 8]));
    let (s, at, frames) = drive(&input);
    assert_eq!(frames, 1);
    assert_eq!(at, 9);
    assert_eq!(s, ReadState::Finished(Termination::EndStream));
}

#[test]
fn data_without_end_stream_goes_on() {
    let input = frame(FrameType::Data, 0x00, &[]);
    let h = parse_frame_header(&input);
    let s = ReadState::new().step(&input);
    assert_eq!(s, ReadState::AwaitingPayload(h));
    assert_eq!(s.bytes_wanted(), Some(0));
    let s = s.step(&[]);
    assert_eq!(s, ReadState::AwaitingHeader);
    assert_eq!(s.bytes_wanted(), Some(9));
    assert!(!s.is_finished());
}

#[test]
fn ping_passes_through() {
    let input = frame(FrameType::Ping, 0x01, &[1, 2, 3, 4, 5, 6, 7, 8]);
    let s = ReadState::new().step(&input[..9]);
    assert_eq!(s.bytes_wanted(), Some(8));
    let s = s.step(&input[9..]);
    assert_eq!(s, ReadState::AwaitingHeader);
    let (s, at, frames) = drive(&input);
    assert_eq!((s, at, frames), (ReadState::AwaitingHeader, 17, 1));
}

#[test]
fn unknown_type_passes_through() {
    let h = parse_frame_header(&[0, 0, 1, 0xFF, 0x01, 0, 0, 0, 0]);
    assert_eq!(on_frame(&h, &[0]), ReadState::AwaitingHeader);
}

#[test]
fn error_code_values() {
    assert_eq!(ErrorCode::from_u32(0), ErrorCode::Known(H2Error::NoError));
    assert_eq!(ErrorCode::from_u32(0xb), ErrorCode::Known(H2Error::EnhanceYourCalm));
    assert_eq!(ErrorCode::from_u32(0xd), ErrorCode::Known(H2Error::Http11Required));
    assert_eq!(ErrorCode::from_u32(0xe), ErrorCode::Unknown(0xe));
    assert_eq!(H2Error::Connect.value(), 10);
}

#[test]
fn request_bytes_exact() {
    let block = get_root_header_block();
    assert_eq!(block, vec![0x82, 0x84, 0x86]);
    let settings = FlagSet::only(Flags::EndStream);
    let headers = FlagSet::only(Flags::EndHeaders).union(FlagSet::only(Flags::EndStream));
    let bytes = build_request(settings, 1, headers, &block).unwrap();
    let mut expected = b"PRI * HTTP/2.0\r\n\r\nSM\r\n\r\n".to_vec();
    expected.extend_from_slice(&[0, 0, 0, 4, 1, 0, 0, 0, 0]);
    expected.extend_from_slice(&[0, 0, 3, 1, 5, 0, 0, 0, 1, 0x82, 0x84, 0x86]);
    assert_eq!(bytes, expected);
}

#[test]
fn request_with_reserved_identifier_fails() {
    let r = build_request(FlagSet::empty(), 0x8000_0000, FlagSet::empty(), &[]);
    assert_eq!(r, Err(EncodeError::ReservedBitSet));
}
