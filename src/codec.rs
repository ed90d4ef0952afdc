use vstd::prelude::*;
use crate::flags::FlagSet;
use crate::frame_type::{FrameType, FrameTypeRaw, classify_type, type_code};

verus! {

/// Size of a frame header on the wire.
pub const HEADER_LEN: usize = 9;

/// Largest payload length that the 24-bit length field can carry.
pub const MAX_PAYLOAD_LEN: u32 = 0xFF_FFFF;

/// The bit of the stream identifier word that carries the reserved bit.
pub const RESERVED_BIT: u32 = 0x8000_0000;

/// A decoded frame header.
#[derive(Debug, Clone, Copy, PartialEq, Eq, Structural)]
pub struct FrameHeader {
    /// Payload length, below 2^24.
    pub len: u32,
    pub frame_type: FrameTypeRaw,
    /// The raw flags byte, unnamed bits included.
    pub flags: u8,
    /// Stream identifier, below 2^31.
    pub stream_ident: u32,
    /// The reserved bit that travels in the identifier word's top bit.
    pub r: bool,
}

/// Why a frame could not be encoded. Nothing is written in either case.
#[derive(Debug, Clone, Copy, PartialEq, Eq, Structural)]
pub enum EncodeError {
    /// The stream identifier given already occupies the reserved bit.
    ReservedBitSet,
    /// The payload does not fit the 24-bit length field.
    PayloadTooLarge,
}

/// The value of three bytes read big-endian.
pub open spec fn be24(a: u8, b: u8, c: u8) -> int {
    a * 65536 + b * 256 + c
}

/// The value of four bytes read big-endian.
pub open spec fn be32(a: u8, b: u8, c: u8, d: u8) -> int {
    a * 16777216 + b * 65536 + c * 256 + d
}

/// The header that the first nine bytes of `s` decode to.
pub open spec fn header_of(s: Seq<u8>) -> FrameHeader
    recommends
        s.len() >= 9,
{
    FrameHeader {
        len: be24(s[0], s[1], s[2]) as u32,
        frame_type: classify_type(s[3]),
        flags: s[4],
        stream_ident: ident_at(s, 5),
        r: s[5] >= 128,
    }
}

/// The nine header bytes of a frame: 24-bit length, type code, flags byte,
/// then the reserved bit and the 31-bit stream identifier in one word.
pub open spec fn header_wire(len: u32, code: u8, flags: u8, sid: u32, r: bool) -> Seq<u8> {
    seq![
        (len / 65536 % 256) as u8,
        (len / 256 % 256) as u8,
        (len % 256) as u8,
        code,
        flags,
        (sid / 16777216 % 128 + if r { 128int } else { 0int }) as u8,
        (sid / 65536 % 256) as u8,
        (sid / 256 % 256) as u8,
        (sid % 256) as u8,
    ]
}

/// A whole frame of a known type: header, then payload.
pub open spec fn frame_wire(t: FrameType, flags: u8, sid: u32, r: bool, payload: Seq<u8>) -> Seq<u8> {
    header_wire(payload.len() as u32, type_code(t), flags, sid, r) + payload
}

/// The connection preface, `PRI * HTTP/2.0\r\n\r\nSM\r\n\r\n`.
pub open spec fn preface_bytes() -> Seq<u8> {
    seq![
        0x50u8, 0x52, 0x49, 0x20, 0x2A, 0x20, 0x48, 0x54, 0x54, 0x50, 0x2F, 0x32,
        0x2E, 0x30, 0x0D, 0x0A, 0x0D, 0x0A, 0x53, 0x4D, 0x0D, 0x0A, 0x0D, 0x0A,
    ]
}

/// Reads a 24-bit big-endian unsigned integer.
pub fn u24_from_be_bytes(bytes: [u8; 3]) -> (r: u32)
    ensures
        r as int == be24(bytes[0], bytes[1], bytes[2]),
        r <= MAX_PAYLOAD_LEN,
{
    let a = bytes[0];
    let b = bytes[1];
    let c = bytes[2];
    let r = (a as u32) << 16 | (b as u32) << 8 | (c as u32);
    assert(r == (a as u32) * 65536 + (b as u32) * 256 + (c as u32) && r <= 0xFF_FFFF)
        by (bit_vector)
        requires r == (a as u32) << 16u32 | (b as u32) << 8u32 | (c as u32);
    r
}

/// The 31-bit identifier held in the four bytes of `s` from `at` on, with the
/// top bit left out.
pub open spec fn ident_at(s: Seq<u8>, at: int) -> u32 {
    be32((s[at] % 128) as u8, s[at + 1], s[at + 2], s[at + 3]) as u32
}

/// Reads the four bytes of `buf` from `at` on as a big-endian word, split into
/// its low 31 bits and its top bit.
pub fn read_ident_word(buf: &[u8], at: usize) -> (res: (u32, bool))
    requires
        at + 4 <= buf@.len(),
    ensures
        res.0 == ident_at(buf@, at as int),
        res.0 < RESERVED_BIT,
        res.1 == (buf@[at as int] >= 128),
{
    let a = buf[at];
    let b = buf[at + 1];
    let c = buf[at + 2];
    let d = buf[at + 3];
    let si = read_be32(buf, at);
    let ident = si & !RESERVED_BIT;
    let r = si & RESERVED_BIT != 0;
    proof {
        let top = (a % 128) as u32;
        let (b32, c32, d32) = (b as u32, c as u32, d as u32);
        assert(ident == top * 16777216 + b32 * 65536 + c32 * 256 + d32 && ident < 0x8000_0000
            && r == (a >= 128))
            by (bit_vector)
            requires
                si == (a as u32) * 16777216 + b32 * 65536 + c32 * 256 + d32,
                top == (a as u32) % 128,
                b32 == b as u32,
                c32 == c as u32,
                d32 == d as u32,
                ident == si & !0x8000_0000u32,
                r == (si & 0x8000_0000u32 != 0);
    }
    (ident, r)
}

/// Reads the four bytes of `buf` from `at` on as a big-endian word.
pub fn read_be32(buf: &[u8], at: usize) -> (r: u32)
    requires
        at + 4 <= buf@.len(),
    ensures
        r as int == be32(buf@[at as int], buf@[at + 1], buf@[at + 2], buf@[at + 3]),
{
    let a = buf[at];
    let b = buf[at + 1];
    let c = buf[at + 2];
    let d = buf[at + 3];
    let r = (a as u32) << 24 | (b as u32) << 16 | (c as u32) << 8 | (d as u32);
    assert(r == (a as u32) * 16777216 + (b as u32) * 65536 + (c as u32) * 256 + (d as u32))
        by (bit_vector)
        requires
            r == (a as u32) << 24u32 | (b as u32) << 16u32 | (c as u32) << 8u32 | (d as u32);
    r
}

/// Decodes the frame header held in the first nine bytes of `buf`. Never
/// fails: an unknown type byte is kept as `FrameTypeRaw::Unknown`.
pub fn parse_frame_header(buf: &[u8]) -> (h: FrameHeader)
    requires
        buf@.len() >= HEADER_LEN,
    ensures
        h == header_of(buf@),
        h.len <= MAX_PAYLOAD_LEN,
        h.stream_ident < RESERVED_BIT,
{
    let len = u24_from_be_bytes([buf[0], buf[1], buf[2]]);
    let frame_type = FrameTypeRaw::from_u8(buf[3]);
    let (stream_ident, r) = read_ident_word(buf, 5);
    FrameHeader { len, frame_type, flags: buf[4], stream_ident, r }
}

/// Appends the bytes of `src` to `buf`.
fn append_slice(buf: &mut Vec<u8>, src: &[u8])
    ensures
        final(buf)@ == old(buf)@ + src@,
{
    let mut i: usize = 0;
    while i < src.len()
        invariant
            i <= src@.len(),
            buf@ == old(buf)@ + src@.subrange(0, i as int),
        decreases src@.len() - i,
    {
        buf.push(src[i]);
        i = i + 1;
        assert(src@.subrange(0, i as int) =~= src@.subrange(0, i - 1) + seq![src@[i - 1]]);
        assert(buf@ =~= old(buf)@ + src@.subrange(0, i as int));
    }
    assert(src@.subrange(0, src@.len() as int) =~= src@);
}

/// Appends the connection preface to `buf`.
pub fn write_preface(buf: &mut Vec<u8>)
    ensures
        final(buf)@ == old(buf)@ + preface_bytes(),
{
    let p: [u8; 24] = [
        0x50, 0x52, 0x49, 0x20, 0x2A, 0x20, 0x48, 0x54, 0x54, 0x50, 0x2F, 0x32,
        0x2E, 0x30, 0x0D, 0x0A, 0x0D, 0x0A, 0x53, 0x4D, 0x0D, 0x0A, 0x0D, 0x0A,
    ];
    assert(p@ =~= preface_bytes());
    append_slice(buf, p.as_slice());
}

/// Appends one frame of type `frame_type` to `w`: the nine header bytes,
/// then `payload`. A stream identifier that already occupies the reserved
/// bit, or a payload of 2^24 bytes or more, is refused before anything is
/// written.
pub fn write_frame(
    w: &mut Vec<u8>,
    frame_type: FrameType,
    flags: FlagSet,
    stream_ident: u32,
    r: bool,
    payload: &[u8],
) -> (res: Result<(), EncodeError>)
    ensures
        res == Ok::<(), EncodeError>(()) <==> stream_ident < RESERVED_BIT && payload@.len()
            <= MAX_PAYLOAD_LEN,
        res == Err::<(), EncodeError>(EncodeError::ReservedBitSet) <==> stream_ident
            >= RESERVED_BIT,
        res == Err::<(), EncodeError>(EncodeError::PayloadTooLarge) <==> stream_ident
            < RESERVED_BIT && payload@.len() > MAX_PAYLOAD_LEN,
        res is Ok ==> final(w)@ == old(w)@ + frame_wire(
            frame_type,
            flags.spec_bits(),
            stream_ident,
            r,
            payload@,
        ),
        res is Err ==> final(w)@ == old(w)@,
{
    if stream_ident & RESERVED_BIT != 0 {
        assert(stream_ident >= 0x8000_0000) by (bit_vector)
            requires stream_ident & 0x8000_0000u32 != 0;
        return Err(EncodeError::ReservedBitSet);
    }
    assert(stream_ident < 0x8000_0000) by (bit_vector)
        requires stream_ident & 0x8000_0000u32 == 0;
    if payload.len() > MAX_PAYLOAD_LEN as usize {
        return Err(EncodeError::PayloadTooLarge);
    }
    let len = payload.len() as u32;
    let code = frame_type.code();
    let fl = flags.as_u8();
    let si = if r {
        stream_ident | RESERVED_BIT
    } else {
        stream_ident
    };
    let ghost start = w@;
    w.push((len >> 16) as u8);
    w.push((len >> 8) as u8);
    w.push(len as u8);
    w.push(code);
    w.push(fl);
    w.push((si >> 24) as u8);
    w.push((si >> 16) as u8);
    w.push((si >> 8) as u8);
    w.push(si as u8);
    proof {
        let sid = stream_ident;
        assert(((len >> 16u32) as u8) as u32 == len / 65536 % 256
            && ((len >> 8u32) as u8) as u32 == len / 256 % 256
            && (len as u8) as u32 == len % 256)
            by (bit_vector);
        if r {
            assert(((si >> 24u32) as u8) as u32 == sid / 16777216 % 128 + 128
                && ((si >> 16u32) as u8) as u32 == sid / 65536 % 256
                && ((si >> 8u32) as u8) as u32 == sid / 256 % 256
                && (si as u8) as u32 == sid % 256)
                by (bit_vector)
                requires
                    sid < 0x8000_0000u32,
                    si == sid | 0x8000_0000u32;
        } else {
            assert(((si >> 24u32) as u8) as u32 == sid / 16777216 % 128
                && ((si >> 16u32) as u8) as u32 == sid / 65536 % 256
                && ((si >> 8u32) as u8) as u32 == sid / 256 % 256
                && (si as u8) as u32 == sid % 256)
                by (bit_vector)
                requires
                    sid < 0x8000_0000u32,
                    si == sid;
        }
        assert(w@ =~= start + header_wire(len, type_code(frame_type), flags.spec_bits(), sid, r));
    }
    append_slice(w, payload);
    assert(w@ =~= old(w)@ + frame_wire(frame_type, flags.spec_bits(), stream_ident, r, payload@));
    Ok(())
}

/// Decoding the header bytes of any valid frame gives back every field that
/// was encoded: length, type, raw flags byte, stream identifier and reserved
/// bit.
pub proof fn lemma_header_round_trip(t: FrameType, flags: u8, sid: u32, r: bool, len: u32)
    requires
        sid < RESERVED_BIT,
        len <= MAX_PAYLOAD_LEN,
    ensures
        header_of(header_wire(len, type_code(t), flags, sid, r)) == (FrameHeader {
            len,
            frame_type: FrameTypeRaw::Known(t),
            flags,
            stream_ident: sid,
            r,
        }),
{
    let s = header_wire(len, type_code(t), flags, sid, r);
    let l0 = (len / 65536 % 256) as u8;
    let l1 = (len / 256 % 256) as u8;
    let l2 = (len % 256) as u8;
    assert((l0 as u32) * 65536 + (l1 as u32) * 256 + (l2 as u32) == len) by (bit_vector)
        requires
            len <= 0xFF_FFFFu32,
            l0 as u32 == len / 65536 % 256,
            l1 as u32 == len / 256 % 256,
            l2 as u32 == len % 256;
    let top = (s[5] % 128) as u32;
    let b = s[6] as u32;
    let c = s[7] as u32;
    let d = s[8] as u32;
    assert(top * 16777216 + b * 65536 + c * 256 + d == sid) by (bit_vector)
        requires
            sid < 0x8000_0000u32,
            top == sid / 16777216 % 128,
            b == sid / 65536 % 256,
            c == sid / 256 % 256,
            d == sid % 256;
    crate::frame_type::lemma_type_code_round_trip(t);
}

/// A whole frame round-trips: its first nine bytes decode to the fields that
/// were encoded, and the bytes after them are exactly the payload.
pub proof fn lemma_frame_round_trip(t: FrameType, flags: u8, sid: u32, r: bool, payload: Seq<u8>)
    requires
        sid < RESERVED_BIT,
        payload.len() <= MAX_PAYLOAD_LEN,
    ensures
        frame_wire(t, flags, sid, r, payload).len() == HEADER_LEN + payload.len(),
        header_of(frame_wire(t, flags, sid, r, payload)) == (FrameHeader {
            len: payload.len() as u32,
            frame_type: FrameTypeRaw::Known(t),
            flags,
            stream_ident: sid,
            r,
        }),
        frame_wire(t, flags, sid, r, payload).subrange(HEADER_LEN as int, HEADER_LEN + payload.len())
            == payload,
{
    let len = payload.len() as u32;
    let h = header_wire(len, type_code(t), flags, sid, r);
    let f = frame_wire(t, flags, sid, r, payload);
    lemma_header_round_trip(t, flags, sid, r, len);
    assert(f.subrange(0, 9) =~= h);
    assert(f.subrange(9, 9 + payload.len() as int) =~= payload);
    assert(header_of(f) == header_of(h));
}

/// Whatever the bytes, a decoded stream identifier never holds the reserved
/// bit: that bit is reported on its own.
pub proof fn lemma_decoded_ident_below_reserved_bit(s: Seq<u8>)
    requires
        s.len() >= HEADER_LEN,
    ensures
        header_of(s).stream_ident < RESERVED_BIT,
        header_of(s).r == (s[5] >= 128),
{
    let a = (s[5] % 128) as u8;
    let b = s[6];
    let c = s[7];
    let d = s[8];
    assert((a as u32) * 16777216 + (b as u32) * 65536 + (c as u32) * 256 + (d as u32) < 0x8000_0000u32)
        by (bit_vector)
        requires a < 128u8;
}

} // verus!
