//! Framing layer of a length-prefixed, typed, flagged binary streaming
//! protocol: frame header layout, frame-type and flag vocabulary, the
//! connection preface, outbound frame assembly and the inbound read loop's
//! decisions.
pub mod codec;
pub mod flags;
pub mod frame_type;
pub mod reader;
pub mod request;
