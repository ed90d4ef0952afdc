use vstd::prelude::*;
use crate::codec::{
    EncodeError, MAX_PAYLOAD_LEN, RESERVED_BIT, frame_wire, preface_bytes, write_frame,
    write_preface,
};
use crate::flags::FlagSet;
use crate::frame_type::FrameType;

verus! {

/// The compressed header block of a plain `GET /` over `http`: the static
/// table entries for `:method: GET`, `:path: /` and `:scheme: http`.
pub open spec fn get_root_block() -> Seq<u8> {
    seq![0x82u8, 0x84, 0x86]
}

/// The compressed header block of a plain `GET /` over `http`.
pub fn get_root_header_block() -> (r: Vec<u8>)
    ensures
        r@ == get_root_block(),
{
    let mut v: Vec<u8> = Vec::new();
    v.push(0x82);
    v.push(0x84);
    v.push(0x86);
    assert(v@ =~= get_root_block());
    v
}

/// The bytes a client sends to open a request: the preface, an empty
/// settings frame on stream 0, then a headers frame carrying `header_block`
/// on `stream_ident`.
pub open spec fn request_bytes(
    settings_flags: u8,
    stream_ident: u32,
    headers_flags: u8,
    header_block: Seq<u8>,
) -> Seq<u8> {
    preface_bytes() + frame_wire(FrameType::Settings, settings_flags, 0, false, Seq::empty())
        + frame_wire(FrameType::Headers, headers_flags, stream_ident, false, header_block)
}

/// Assembles the outbound bytes of a request, with the flags of each frame
/// chosen by the caller. Fails, as encoding does, on a stream identifier that
/// occupies the reserved bit or a header block of 2^24 bytes or more.
pub fn build_request(
    settings_flags: FlagSet,
    stream_ident: u32,
    headers_flags: FlagSet,
    header_block: &[u8],
) -> (res: Result<Vec<u8>, EncodeError>)
    ensures
        res is Ok <==> stream_ident < RESERVED_BIT && header_block@.len() <= MAX_PAYLOAD_LEN,
        res matches Ok(v) ==> v@ == request_bytes(
            settings_flags.spec_bits(),
            stream_ident,
            headers_flags.spec_bits(),
            header_block@,
        ),
        res == Err::<Vec<u8>, EncodeError>(EncodeError::ReservedBitSet) <==> stream_ident
            >= RESERVED_BIT,
        res == Err::<Vec<u8>, EncodeError>(EncodeError::PayloadTooLarge) <==> stream_ident
            < RESERVED_BIT && header_block@.len() > MAX_PAYLOAD_LEN,
{
    let mut buf: Vec<u8> = Vec::new();
    write_preface(&mut buf);
    let empty: [u8; 0] = [];
    let settings = write_frame(&mut buf, FrameType::Settings, settings_flags, 0, false, empty.as_slice());
    assert(settings is Ok);
    match write_frame(&mut buf, FrameType::Headers, headers_flags, stream_ident, false, header_block) {
        Ok(()) => {
            assert(empty@ =~= Seq::<u8>::empty());
            assert(buf@ =~= request_bytes(
                settings_flags.spec_bits(),
                stream_ident,
                headers_flags.spec_bits(),
                header_block@,
            ));
            Ok(buf)
        },
        Err(e) => Err(e),
    }
}

} // verus!
