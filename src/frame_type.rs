use vstd::prelude::*;

verus! {

/// The closed set of frame types this protocol defines.
#[derive(Debug, Clone, Copy, PartialEq, Eq, Structural)]
pub enum FrameType {
    Data,
    Headers,
    Priority,
    RstStream,
    Settings,
    PushPromise,
    Ping,
    Goaway,
    WindowUpdate,
    Continuation,
}

/// A frame type as it appears on the wire: one of the known types, or an
/// unrecognised code that is carried along unchanged.
#[derive(Debug, Clone, Copy, PartialEq, Eq, Structural)]
pub enum FrameTypeRaw {
    Known(FrameType),
    Unknown(u8),
}

/// The wire code of each known frame type.
pub open spec fn type_code(t: FrameType) -> u8 {
    match t {
        FrameType::Data => 0,
        FrameType::Headers => 1,
        FrameType::Priority => 2,
        FrameType::RstStream => 3,
        FrameType::Settings => 4,
        FrameType::PushPromise => 5,
        FrameType::Ping => 6,
        FrameType::Goaway => 7,
        FrameType::WindowUpdate => 8,
        FrameType::Continuation => 9,
    }
}

/// The known frame type whose code is `b`, if any.
pub open spec fn known_type(b: u8) -> Option<FrameType> {
    if b == 0 {
        Some(FrameType::Data)
    } else if b == 1 {
        Some(FrameType::Headers)
    } else if b == 2 {
        Some(FrameType::Priority)
    } else if b == 3 {
        Some(FrameType::RstStream)
    } else if b == 4 {
        Some(FrameType::Settings)
    } else if b == 5 {
        Some(FrameType::PushPromise)
    } else if b == 6 {
        Some(FrameType::Ping)
    } else if b == 7 {
        Some(FrameType::Goaway)
    } else if b == 8 {
        Some(FrameType::WindowUpdate)
    } else if b == 9 {
        Some(FrameType::Continuation)
    } else {
        None
    }
}

/// How a type byte read off the wire is classified: never a failure.
pub open spec fn classify_type(b: u8) -> FrameTypeRaw {
    match known_type(b) {
        Some(t) => FrameTypeRaw::Known(t),
        None => FrameTypeRaw::Unknown(b),
    }
}

/// The byte that a classified type stands for on the wire.
pub open spec fn raw_code(t: FrameTypeRaw) -> u8 {
    match t {
        FrameTypeRaw::Known(k) => type_code(k),
        FrameTypeRaw::Unknown(b) => b,
    }
}

impl FrameType {
    /// The frame type's wire code.
    pub fn code(self) -> (r: u8)
        ensures
            r == type_code(self),
            r <= 9,
    {
        match self {
            FrameType::Data => 0,
            FrameType::Headers => 1,
            FrameType::Priority => 2,
            FrameType::RstStream => 3,
            FrameType::Settings => 4,
            FrameType::PushPromise => 5,
            FrameType::Ping => 6,
            FrameType::Goaway => 7,
            FrameType::WindowUpdate => 8,
            FrameType::Continuation => 9,
        }
    }

    /// The known frame type with wire code `b`, or `None` when the code is
    /// not one of the known ones.
    pub fn from_code(b: u8) -> (r: Option<FrameType>)
        ensures
            r == known_type(b),
            r.is_some() <==> b <= 9,
    {
        match b {
            0 => Some(FrameType::Data),
            1 => Some(FrameType::Headers),
            2 => Some(FrameType::Priority),
            3 => Some(FrameType::RstStream),
            4 => Some(FrameType::Settings),
            5 => Some(FrameType::PushPromise),
            6 => Some(FrameType::Ping),
            7 => Some(FrameType::Goaway),
            8 => Some(FrameType::WindowUpdate),
            9 => Some(FrameType::Continuation),
            _ => None,
        }
    }
}

impl FrameTypeRaw {
    /// Classifies a type byte: a known type, or `Unknown` holding the byte.
    pub fn from_u8(b: u8) -> (r: FrameTypeRaw)
        ensures
            r == classify_type(b),
            raw_code(r) == b,
    {
        match FrameType::from_code(b) {
            Some(t) => FrameTypeRaw::Known(t),
            None => FrameTypeRaw::Unknown(b),
        }
    }

    /// The byte this type stands for on the wire.
    pub fn code(self) -> (r: u8)
        ensures
            r == raw_code(self),
    {
        match self {
            FrameTypeRaw::Known(t) => t.code(),
            FrameTypeRaw::Unknown(b) => b,
        }
    }
}

/// Every known type's code classifies back to that same type.
pub proof fn lemma_type_code_round_trip(t: FrameType)
    ensures
        known_type(type_code(t)) == Some(t),
        classify_type(type_code(t)) == FrameTypeRaw::Known(t),
{
}

/// Classifying a byte never fails, and an unrecognised byte is kept as is.
pub proof fn lemma_classify_total(b: u8)
    ensures
        raw_code(classify_type(b)) == b,
        b > 9 ==> classify_type(b) == FrameTypeRaw::Unknown(b),
{
}

} // verus!
