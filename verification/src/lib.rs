//! Binary framing layer for HTTP/2: a codec for the fixed 9-byte frame
//! header, a raw frame container over borrowed or owned bytes, the padding
//! extractor used by frame-type decoders, and the capability traits that
//! concrete frame types and serialization sinks satisfy.

mod frame;
mod header;
mod padding;

pub use frame::Flag;
pub use frame::Frame;
pub use frame::FrameBuilder;
pub use frame::FrameIR;
pub use frame::NoFlag;
pub use frame::RawFrame;
pub use frame::lemma_content_determines_frame;
pub use frame::lemma_parsed_frame_is_exact_prefix;
pub use frame::lemma_wire_bytes_verbatim;
pub use header::FRAME_HEADER_LEN;
pub use header::FrameHeader;
pub use header::FrameHeaderBuffer;
pub use header::StreamId;
pub use header::lemma_header_round_trip;
pub use header::lemma_pack_unpack_identity;
pub use header::lemma_reserved_bit_ignored;
pub use header::pack_header;
pub use header::pack_header_spec;
pub use header::unpack_header;
pub use header::unpack_header_spec;
pub use padding::strip_padding;
