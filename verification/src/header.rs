//! Codec for the fixed 9-byte HTTP/2 frame header.
//!
//! Every frame starts with the same 9-byte prefix: a 24-bit payload length,
//! a type octet, a flags octet, and a 31-bit stream identifier, all
//! multi-byte fields in network (big-endian) byte order. The top bit of the
//! stream-identifier field is reserved: it is ignored on decode and left
//! clear on encode.

use vstd::prelude::*;
use vstd::slice::slice_subrange;

verus! {

/// Identifier of the logical stream a frame belongs to; 31 bits on the
/// wire, with 0 denoting connection-level control frames.
pub type StreamId = u32;

/// The 9-byte wire representation that each frame header is stored in.
pub type FrameHeaderBuffer = [u8; 9];

/// The decoded components of a frame header, as the 4-tuple
/// `(length, frame_type, flags, stream_id)`. The type and flags octets are
/// kept verbatim; interpreting them is a collaborator's responsibility.
pub type FrameHeader = (u32, u8, u8, StreamId);

/// Number of bytes in the wire representation of a frame header.
pub const FRAME_HEADER_LEN: usize = 9;

/// The four header fields held by a 9-byte buffer: `length` assembled
/// big-endian from bytes 0-2, the type and flags octets verbatim, and
/// `stream_id` assembled big-endian from bytes 5-8 with the reserved top
/// bit of byte 5 cleared.
pub open spec fn unpack_header_spec(b: Seq<u8>) -> FrameHeader
    recommends
        b.len() == 9,
{
    (
        (b[0] * 0x10000 + b[1] * 0x100 + b[2]) as u32,
        b[3],
        b[4],
        ((b[5] % 0x80) * 0x1000000 + b[6] * 0x10000 + b[7] * 0x100 + b[8]) as u32,
    )
}

/// The 9-byte wire representation of a header: `length` as 3 big-endian
/// bytes (upper bits of the 32-bit value are discarded), the type and flags
/// octets verbatim, and `stream_id` as 4 big-endian bytes. For a stream id
/// within its 31-bit range the reserved top bit comes out clear.
pub open spec fn pack_header_spec(h: FrameHeader) -> Seq<u8> {
    seq![
        (h.0 / 0x10000 % 0x100) as u8,
        (h.0 / 0x100 % 0x100) as u8,
        (h.0 % 0x100) as u8,
        h.1,
        h.2,
        (h.3 / 0x1000000 % 0x100) as u8,
        (h.3 / 0x10000 % 0x100) as u8,
        (h.3 / 0x100 % 0x100) as u8,
        (h.3 % 0x100) as u8,
    ]
}

/// Reads the next 4 octets of `buf` as a stream identifier: a network-endian
/// 31-bit integer. The most significant bit of the first octet is reserved
/// and MUST be ignored when received, so it is cleared here.
fn parse_stream_id(buf: &[u8]) -> (id: u32)
    requires
        buf@.len() >= 4,
    ensures
        id == (buf@[0] % 0x80) * 0x1000000 + buf@[1] * 0x10000 + buf@[2] * 0x100 + buf@[3],
{
    let b0: u32 = (buf[0] % 0x80) as u32;
    let b1: u32 = buf[1] as u32;
    let b2: u32 = buf[2] as u32;
    let b3: u32 = buf[3] as u32;
    b0 * 0x1000000 + b1 * 0x10000 + b2 * 0x100 + b3
}

/// Deconstructs the 9-byte wire form of a frame header into its 4
/// components `(length, frame_type, flags, stream_id)`.
///
/// Total: every buffer decodes, with the reserved bit of the stream
/// identifier ignored.
pub fn unpack_header(header: &FrameHeaderBuffer) -> (h: FrameHeader)
    ensures
        h == unpack_header_spec(header@),
{
    let length: u32 = (header[0] as u32) * 0x10000 + (header[1] as u32) * 0x100
        + (header[2] as u32);
    let frame_type: u8 = header[3];
    let flags: u8 = header[4];
    let stream_id: u32 = parse_stream_id(slice_subrange(header.as_slice(), 5, 9));
    (length, frame_type, flags, stream_id)
}

/// Constructs the 9-byte wire form of the given frame header.
///
/// Total: a `length` wider than 24 bits has its upper bits discarded
/// (staying within 24 bits is the caller's contract), and a `stream_id`
/// within its 31-bit range is written with the reserved bit clear.
pub fn pack_header(header: &FrameHeader) -> (b: FrameHeaderBuffer)
    ensures
        b@ == pack_header_spec(*header),
{
    let length: u32 = header.0;
    let stream_id: u32 = header.3;
    let b: FrameHeaderBuffer = [
        (length / 0x10000 % 0x100) as u8,
        (length / 0x100 % 0x100) as u8,
        (length % 0x100) as u8,
        header.1,
        header.2,
        (stream_id / 0x1000000 % 0x100) as u8,
        (stream_id / 0x10000 % 0x100) as u8,
        (stream_id / 0x100 % 0x100) as u8,
        (stream_id % 0x100) as u8,
    ];
    proof {
        assert(b@ =~= pack_header_spec(*header));
    }
    b
}

/// Round-trip law: a header whose `length` fits in 24 bits and whose
/// `stream_id` fits in 31 bits is recovered exactly by decoding its
/// encoding.
pub proof fn lemma_header_round_trip(h: FrameHeader)
    requires
        h.0 < 0x1000000,
        h.3 < 0x80000000,
    ensures
        unpack_header_spec(pack_header_spec(h)) == h,
{
    let len: u32 = h.0;
    let sid: u32 = h.3;
    assert(len / 0x10000 % 0x100 * 0x10000 + len / 0x100 % 0x100 * 0x100 + len % 0x100
        == len) by (bit_vector)
        requires
            len < 0x1000000,
    ;
    assert(sid / 0x1000000 % 0x100 % 0x80 * 0x1000000 + sid / 0x10000 % 0x100 * 0x10000
        + sid / 0x100 % 0x100 * 0x100 + sid % 0x100 == sid) by (bit_vector)
        requires
            sid < 0x80000000,
    ;
}

/// Encoding law dual to the round trip: a 9-byte header buffer whose
/// reserved bit is already clear is reproduced exactly by encoding its
/// decoding.
pub proof fn lemma_pack_unpack_identity(b: Seq<u8>)
    requires
        b.len() == 9,
        b[5] < 0x80,
    ensures
        pack_header_spec(unpack_header_spec(b)) == b,
{
    let b0: u8 = b[0];
    let b1: u8 = b[1];
    let b2: u8 = b[2];
    let b5: u8 = b[5];
    let b6: u8 = b[6];
    let b7: u8 = b[7];
    let b8: u8 = b[8];
    assert((b0 * 0x10000 + b1 * 0x100 + b2) / 0x10000 % 0x100 == b0) by (bit_vector);
    assert((b0 * 0x10000 + b1 * 0x100 + b2) / 0x100 % 0x100 == b1) by (bit_vector);
    assert((b0 * 0x10000 + b1 * 0x100 + b2) % 0x100 == b2) by (bit_vector);
    assert((b5 % 0x80 * 0x1000000 + b6 * 0x10000 + b7 * 0x100 + b8) / 0x1000000 % 0x100
        == b5) by (bit_vector)
        requires
            b5 < 0x80,
    ;
    assert((b5 % 0x80 * 0x1000000 + b6 * 0x10000 + b7 * 0x100 + b8) / 0x10000 % 0x100
        == b6) by (bit_vector);
    assert((b5 % 0x80 * 0x1000000 + b6 * 0x10000 + b7 * 0x100 + b8) / 0x100 % 0x100
        == b7) by (bit_vector);
    assert((b5 % 0x80 * 0x1000000 + b6 * 0x10000 + b7 * 0x100 + b8) % 0x100 == b8) by (bit_vector);
    assert(pack_header_spec(unpack_header_spec(b)) =~= b);
}

/// Reserved-bit law: setting the top bit of the stream identifier's first
/// byte does not change what a header buffer decodes to.
pub proof fn lemma_reserved_bit_ignored(b: Seq<u8>)
    requires
        b.len() == 9,
    ensures
        unpack_header_spec(b.update(5, b[5] | 0x80)) == unpack_header_spec(b),
{
    let x: u8 = b[5];
    assert((x | 0x80) % 0x80 == x % 0x80) by (bit_vector);
}

} // verus!
