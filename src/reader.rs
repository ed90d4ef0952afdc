use vstd::prelude::*;
use crate::codec::{
    FrameHeader, HEADER_LEN, be32, header_of, ident_at, parse_frame_header,
    read_be32, read_ident_word,
};
use crate::flags::{FlagSet, Flags, flags_in};
use crate::frame_type::{FrameType, FrameTypeRaw};

verus! {

/// The error codes that a connection-termination frame can carry.
#[derive(Debug, Clone, Copy, PartialEq, Eq, Structural)]
pub enum H2Error {
    NoError,
    Protocol,
    Internal,
    FlowControl,
    SettingsTimeout,
    StreamClosed,
    FrameSize,
    RefusedStream,
    Cancel,
    Compression,
    Connect,
    EnhanceYourCalm,
    InadaquateSecurity,
    Http11Required,
}

/// An error code as read off the wire: a known one, or the raw value when it
/// is none of them.
#[derive(Debug, Clone, Copy, PartialEq, Eq, Structural)]
pub enum ErrorCode {
    Known(H2Error),
    Unknown(u32),
}

/// The wire value of each known error code.
pub open spec fn error_value(e: H2Error) -> u32 {
    match e {
        H2Error::NoError => 0,
        H2Error::Protocol => 1,
        H2Error::Internal => 2,
        H2Error::FlowControl => 3,
        H2Error::SettingsTimeout => 4,
        H2Error::StreamClosed => 5,
        H2Error::FrameSize => 6,
        H2Error::RefusedStream => 7,
        H2Error::Cancel => 8,
        H2Error::Compression => 9,
        H2Error::Connect => 10,
        H2Error::EnhanceYourCalm => 11,
        H2Error::InadaquateSecurity => 12,
        H2Error::Http11Required => 13,
    }
}

/// The known error code whose wire value is `v`, if any.
pub open spec fn known_error(v: u32) -> Option<H2Error> {
    if v == 0 {
        Some(H2Error::NoError)
    } else if v == 1 {
        Some(H2Error::Protocol)
    } else if v == 2 {
        Some(H2Error::Internal)
    } else if v == 3 {
        Some(H2Error::FlowControl)
    } else if v == 4 {
        Some(H2Error::SettingsTimeout)
    } else if v == 5 {
        Some(H2Error::StreamClosed)
    } else if v == 6 {
        Some(H2Error::FrameSize)
    } else if v == 7 {
        Some(H2Error::RefusedStream)
    } else if v == 8 {
        Some(H2Error::Cancel)
    } else if v == 9 {
        Some(H2Error::Compression)
    } else if v == 10 {
        Some(H2Error::Connect)
    } else if v == 11 {
        Some(H2Error::EnhanceYourCalm)
    } else if v == 12 {
        Some(H2Error::InadaquateSecurity)
    } else if v == 13 {
        Some(H2Error::Http11Required)
    } else {
        None
    }
}

/// How an error-code value is read: the known code with that value, else the
/// value itself.
pub open spec fn error_code_of(v: u32) -> ErrorCode {
    match known_error(v) {
        Some(e) => ErrorCode::Known(e),
        None => ErrorCode::Unknown(v),
    }
}

impl H2Error {
    /// The error code's wire value.
    pub fn value(self) -> (r: u32)
        ensures
            r == error_value(self),
    {
        match self {
            H2Error::NoError => 0,
            H2Error::Protocol => 1,
            H2Error::Internal => 2,
            H2Error::FlowControl => 3,
            H2Error::SettingsTimeout => 4,
            H2Error::StreamClosed => 5,
            H2Error::FrameSize => 6,
            H2Error::RefusedStream => 7,
            H2Error::Cancel => 8,
            H2Error::Compression => 9,
            H2Error::Connect => 10,
            H2Error::EnhanceYourCalm => 11,
            H2Error::InadaquateSecurity => 12,
            H2Error::Http11Required => 13,
        }
    }
}

impl ErrorCode {
    /// Reads an error-code value; one that names no known code is kept raw.
    pub fn from_u32(v: u32) -> (r: ErrorCode)
        ensures
            r == error_code_of(v),
            r is Unknown <==> v > 13,
    {
        let r = match v {
            0 => ErrorCode::Known(H2Error::NoError),
            1 => ErrorCode::Known(H2Error::Protocol),
            2 => ErrorCode::Known(H2Error::Internal),
            3 => ErrorCode::Known(H2Error::FlowControl),
            4 => ErrorCode::Known(H2Error::SettingsTimeout),
            5 => ErrorCode::Known(H2Error::StreamClosed),
            6 => ErrorCode::Known(H2Error::FrameSize),
            7 => ErrorCode::Known(H2Error::RefusedStream),
            8 => ErrorCode::Known(H2Error::Cancel),
            9 => ErrorCode::Known(H2Error::Compression),
            10 => ErrorCode::Known(H2Error::Connect),
            11 => ErrorCode::Known(H2Error::EnhanceYourCalm),
            12 => ErrorCode::Known(H2Error::InadaquateSecurity),
            13 => ErrorCode::Known(H2Error::Http11Required),
            _ => ErrorCode::Unknown(v),
        };
        r
    }
}

/// Every known error code's value reads back as that code.
pub proof fn lemma_error_value_round_trip(e: H2Error)
    ensures
        error_code_of(error_value(e)) == ErrorCode::Known(e),
{
}

/// What a connection-termination frame's payload says.
#[derive(Debug, Clone, Copy, PartialEq, Eq, Structural)]
pub struct Goaway {
    /// The reserved bit beside the last stream identifier.
    pub r: bool,
    pub last_stream_id: u32,
    pub error: ErrorCode,
}

/// The termination notice that payload `s` holds, when it is long enough.
pub open spec fn goaway_of(s: Seq<u8>) -> Option<Goaway> {
    if s.len() < 8 {
        None
    } else {
        Some(
            Goaway {
                r: s[0] >= 128,
                last_stream_id: ident_at(s, 0),
                error: error_code_of(be32(s[4], s[5], s[6], s[7]) as u32),
            },
        )
    }
}

/// Reads a termination notice: the last stream identifier with its reserved
/// bit, then the error code. `None` when the payload is under eight bytes.
pub fn parse_goaway(payload: &[u8]) -> (res: Option<Goaway>)
    ensures
        res == goaway_of(payload@),
{
    if payload.len() < 8 {
        return None;
    }
    let (last_stream_id, r) = read_ident_word(payload, 0);
    let v = read_be32(payload, 4);
    Some(Goaway { r, last_stream_id, error: ErrorCode::from_u32(v) })
}

/// Why the read loop stopped.
#[derive(Debug, Clone, Copy, PartialEq, Eq, Structural)]
pub enum Termination {
    /// The peer ended the connection.
    Goaway(Goaway),
    /// The peer ended the connection with a payload too short to read.
    MalformedGoaway,
    /// A data frame closed the stream.
    EndStream,
}

/// Where the inbound read loop stands.
#[derive(Debug, Clone, Copy, PartialEq, Eq, Structural)]
pub enum ReadState {
    /// The next nine bytes are a frame header.
    AwaitingHeader,
    /// The next `len` bytes are the payload of this frame.
    AwaitingPayload(FrameHeader),
    /// The loop is over; nothing more is read.
    Finished(Termination),
}

/// How many bytes the loop reads next in state `s`, or `None` once it is over.
pub open spec fn wanted(s: ReadState) -> Option<nat> {
    match s {
        ReadState::AwaitingHeader => Some(HEADER_LEN as nat),
        ReadState::AwaitingPayload(h) => Some(h.len as nat),
        ReadState::Finished(_) => None,
    }
}

/// What a whole frame leads to: a termination frame ends the loop, a data
/// frame with the end-of-stream flag ends it, any other frame is passed over.
pub open spec fn after_frame(h: FrameHeader, payload: Seq<u8>) -> ReadState {
    match h.frame_type {
        FrameTypeRaw::Known(FrameType::Goaway) => ReadState::Finished(
            match goaway_of(payload) {
                Some(g) => Termination::Goaway(g),
                None => Termination::MalformedGoaway,
            },
        ),
        FrameTypeRaw::Known(FrameType::Data) => if flags_in(h.flags).contains(Flags::EndStream) {
            ReadState::Finished(Termination::EndStream)
        } else {
            ReadState::AwaitingHeader
        },
        _ => ReadState::AwaitingHeader,
    }
}

/// The state after state `s` takes in the bytes it asked for.
pub open spec fn next_state(s: ReadState, input: Seq<u8>) -> ReadState {
    match s {
        ReadState::AwaitingHeader => ReadState::AwaitingPayload(header_of(input)),
        ReadState::AwaitingPayload(h) => after_frame(h, input),
        ReadState::Finished(t) => ReadState::Finished(t),
    }
}

impl ReadState {
    /// The state the loop starts in, once the outbound bytes have been sent.
    pub fn new() -> (r: ReadState)
        ensures
            r == ReadState::AwaitingHeader,
    {
        ReadState::AwaitingHeader
    }

    /// How many bytes to read next, or `None` once the loop is over.
    pub fn bytes_wanted(&self) -> (r: Option<usize>)
        ensures
            r matches Some(n) ==> wanted(*self) == Some(n as nat),
            r is None <==> wanted(*self) is None,
    {
        match self {
            ReadState::AwaitingHeader => Some(HEADER_LEN),
            ReadState::AwaitingPayload(h) => Some(h.len as usize),
            ReadState::Finished(_) => None,
        }
    }

    /// Whether the loop is over.
    pub fn is_finished(&self) -> (r: bool)
        ensures
            r == (*self is Finished),
    {
        matches!(self, ReadState::Finished(_))
    }

    /// Takes in exactly the bytes the state asked for and gives the next
    /// state: a header read leads to its payload, and a payload decides, by
    /// the frame's type and flags, whether the loop goes on.
    pub fn step(self, input: &[u8]) -> (r: ReadState)
        requires
            wanted(self) == Some(input@.len()),
        ensures
            r == next_state(self, input@),
    {
        match self {
            ReadState::AwaitingHeader => ReadState::AwaitingPayload(parse_frame_header(input)),
            ReadState::AwaitingPayload(h) => on_frame(&h, input),
            ReadState::Finished(t) => ReadState::Finished(t),
        }
    }
}

/// Decides what a whole frame, header `h` and its payload, leads to.
pub fn on_frame(h: &FrameHeader, payload: &[u8]) -> (r: ReadState)
    ensures
        r == after_frame(*h, payload@),
{
    match h.frame_type {
        FrameTypeRaw::Known(FrameType::Goaway) => ReadState::Finished(
            match parse_goaway(payload) {
                Some(g) => Termination::Goaway(g),
                None => Termination::MalformedGoaway,
            },
        ),
        FrameTypeRaw::Known(FrameType::Data) => {
            if FlagSet::from_u8_truncated(h.flags).contains(Flags::EndStream) {
                ReadState::Finished(Termination::EndStream)
            } else {
                ReadState::AwaitingHeader
            }
        },
        _ => ReadState::AwaitingHeader,
    }
}

/// A frame ends the loop exactly when it is a termination frame, or a data
/// frame whose flags byte has the end-of-stream bit; every other frame, known
/// type or not, leaves the loop waiting for the next header.
pub proof fn lemma_loop_ends_exactly_on(h: FrameHeader, payload: Seq<u8>)
    ensures
        after_frame(h, payload) is Finished <==> (h.frame_type == FrameTypeRaw::Known(
            FrameType::Goaway,
        ) || (h.frame_type == FrameTypeRaw::Known(FrameType::Data) && h.flags & 1 != 0)),
        !(after_frame(h, payload) is Finished) ==> after_frame(h, payload)
            == ReadState::AwaitingHeader,
{
}

/// Each frame is read as one header of nine bytes, then exactly as many
/// payload bytes as the header declares.
pub proof fn lemma_frame_read_sizes(header: Seq<u8>)
    requires
        header.len() == HEADER_LEN,
    ensures
        wanted(ReadState::AwaitingHeader) == Some(HEADER_LEN as nat),
        wanted(next_state(ReadState::AwaitingHeader, header)) == Some(
            header_of(header).len as nat,
        ),
{
}

} // verus!
