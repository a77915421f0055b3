//! The raw HTTP/2 frame container and the capability traits around it.
//!
//! [`RawFrame`] holds one frame's worth of wire bytes — the 9-byte header
//! followed by the payload — either borrowed from a caller's buffer without
//! copying or owned outright. It decodes lazily: the bytes are kept
//! uninterpreted until [`RawFrame::header`] or [`RawFrame::payload`] is
//! called. The traits [`Frame`], [`Flag`], [`FrameIR`] and [`FrameBuilder`]
//! are the contracts that concrete frame types and serialization sinks
//! satisfy so the rest of a connection can treat all frame types uniformly.

use vstd::prelude::*;
use vstd::slice::slice_subrange;
use vstd::slice::slice_to_vec;

use crate::header::FRAME_HEADER_LEN;
use crate::header::FrameHeader;
use crate::header::FrameHeaderBuffer;
use crate::header::StreamId;
use crate::header::pack_header;
use crate::header::pack_header_spec;
use crate::header::unpack_header;
use crate::header::unpack_header_spec;

verus! {

/// Backing bytes of a raw frame: borrowed from an external buffer whose
/// lifetime bounds the frame's, or owned by the frame itself.
enum FrameBytes<'a> {
    Borrowed(&'a [u8]),
    Owned(Vec<u8>),
}

/// One raw HTTP/2 frame as read from the wire: the raw header
/// representation in the first 9 bytes, followed by the raw payload
/// representation.
///
/// The bytes are stored uninterpreted and unvalidated: no check is made
/// that the header's length field matches the number of payload bytes
/// actually held. [`RawFrame::parse`] is the validating constructor;
/// [`RawFrame::from_vec_unchecked`] and [`RawFrame::from_slice_unchecked`]
/// accept any bytes, so a frame built through them need not be
/// self-consistent.
pub struct RawFrame<'a> {
    raw_content: FrameBytes<'a>,
}

impl<'a> View for RawFrame<'a> {
    type V = Seq<u8>;

    closed spec fn view(&self) -> Seq<u8> {
        match self.raw_content {
            FrameBytes::Borrowed(s) => s@,
            FrameBytes::Owned(v) => v@,
        }
    }
}

impl<'a> RawFrame<'a> {
    /// The header encoded in the frame's first 9 bytes; meaningful only
    /// when at least 9 bytes are held.
    pub open spec fn spec_header(&self) -> FrameHeader {
        unpack_header_spec(self@.take(9))
    }

    /// The payload: every held byte after the 9-byte header.
    pub open spec fn spec_payload(&self) -> Seq<u8> {
        self@.skip(9)
    }

    /// Parses a `RawFrame` from the bytes at the beginning of `buf`.
    ///
    /// Returns `None` when there are not enough bytes: fewer than 9 for
    /// the header, or fewer than `9 + length` in total, where `length` is
    /// the payload length the header declares. Otherwise the frame borrows
    /// exactly the first `9 + length` bytes of `buf` — no copy is made —
    /// and trailing bytes beyond the frame are neither consumed nor
    /// inspected: callers advance their own read position and parse the
    /// remainder.
    pub fn parse(buf: &'a [u8]) -> (r: Option<RawFrame<'a>>)
        ensures
            match r {
                Some(f) => {
                    &&& buf@.len() >= 9
                    &&& f@.len() == 9 + unpack_header_spec(buf@.take(9)).0
                    &&& f@.len() <= buf@.len()
                    &&& f@ == buf@.take(f@.len() as int)
                },
                None => buf@.len() < 9 || buf@.len() < 9 + unpack_header_spec(buf@.take(9)).0,
            },
    {
        if buf.len() < FRAME_HEADER_LEN {
            return None;
        }
        let hdr: FrameHeaderBuffer = [buf[0], buf[1], buf[2], buf[3], buf[4], buf[5], buf[6],
            buf[7], buf[8]];
        proof {
            assert(hdr@ =~= buf@.take(9));
        }
        let header = unpack_header(&hdr);
        let payload_len: usize = header.0 as usize;
        if buf.len() - FRAME_HEADER_LEN < payload_len {
            return None;
        }
        Some(RawFrame::from_slice_unchecked(slice_subrange(buf, 0, FRAME_HEADER_LEN
            + payload_len)))
    }

    /// Unchecked construction from an owned buffer.
    ///
    /// No validation is performed: the resulting frame holds `raw`
    /// verbatim, whether or not it is a self-consistent HTTP/2 frame.
    /// Handing over bytes that do not encode a valid header/payload pair is
    /// a caller contract violation whose consequences are confined to what
    /// later `header()` and `payload()` calls observe.
    pub fn from_vec_unchecked(raw: Vec<u8>) -> (f: RawFrame<'static>)
        ensures
            f@ == raw@,
    {
        RawFrame { raw_content: FrameBytes::Owned(raw) }
    }

    /// Unchecked zero-copy construction from a borrowed slice.
    ///
    /// No validation is performed and no copy is made: the frame borrows
    /// `raw` verbatim, under the same caller contract as
    /// [`RawFrame::from_vec_unchecked`].
    pub fn from_slice_unchecked(raw: &'a [u8]) -> (f: RawFrame<'a>)
        ensures
            f@ == raw@,
    {
        RawFrame { raw_content: FrameBytes::Borrowed(raw) }
    }

    /// Converts the frame into one that owns its bytes, decoupling its
    /// lifetime from the buffer it was borrowed from. The content is
    /// unchanged.
    pub fn into_static(self) -> (f: RawFrame<'static>)
        ensures
            f@ == self@,
    {
        match self.raw_content {
            FrameBytes::Borrowed(s) => RawFrame {
                raw_content: FrameBytes::Owned(slice_to_vec(s)),
            },
            FrameBytes::Owned(v) => RawFrame { raw_content: FrameBytes::Owned(v) },
        }
    }

    /// The total number of bytes held, header and payload together. This
    /// counts the bytes actually present, independently of the length
    /// field inside the header; the two coincide for a frame built by
    /// [`RawFrame::parse`].
    pub fn len(&self) -> (n: usize)
        ensures
            n == self@.len(),
    {
        match &self.raw_content {
            FrameBytes::Borrowed(s) => s.len(),
            FrameBytes::Owned(v) => v.len(),
        }
    }

    /// Borrows the full held byte range, verbatim.
    pub fn as_bytes(&self) -> (b: &[u8])
        ensures
            b@ == self@,
    {
        match &self.raw_content {
            FrameBytes::Borrowed(s) => *s,
            FrameBytes::Owned(v) => v.as_slice(),
        }
    }

    /// Returns an owned copy of the held bytes: the serialized,
    /// on-the-wire representation of this raw frame.
    pub fn serialize(&self) -> (out: Vec<u8>)
        ensures
            out@ == self@,
    {
        slice_to_vec(self.as_bytes())
    }

    /// Converts the frame into its held bytes as an owned buffer.
    pub fn into_vec(self) -> (out: Vec<u8>)
        ensures
            out@ == self@,
    {
        match self.raw_content {
            FrameBytes::Borrowed(s) => slice_to_vec(s),
            FrameBytes::Owned(v) => v,
        }
    }

    /// Decodes the frame header from the first 9 held bytes. At least 9
    /// bytes must be present: only a frame built by [`RawFrame::parse`],
    /// or otherwise validated, guarantees that.
    pub fn header(&self) -> (h: FrameHeader)
        requires
            self@.len() >= 9,
        ensures
            h == self.spec_header(),
    {
        let bytes = self.as_bytes();
        let hdr: FrameHeaderBuffer = [bytes[0], bytes[1], bytes[2], bytes[3], bytes[4], bytes[5],
            bytes[6], bytes[7], bytes[8]];
        proof {
            assert(hdr@ =~= self@.take(9));
        }
        unpack_header(&hdr)
    }

    /// Borrows the frame's payload: the bytes from offset 9 to the end of
    /// the held range. As with [`RawFrame::header`], at least 9 bytes must
    /// be present.
    pub fn payload(&self) -> (p: &[u8])
        requires
            self@.len() >= 9,
        ensures
            p@ == self.spec_payload(),
    {
        let bytes = self.as_bytes();
        slice_subrange(bytes, FRAME_HEADER_LEN, bytes.len())
    }
}

impl<'a> Clone for RawFrame<'a> {
    /// Clones the frame with its content unchanged: a borrowing frame
    /// stays borrowing, an owning frame copies its buffer.
    fn clone(&self) -> (f: Self)
        ensures
            f@ == self@,
    {
        match &self.raw_content {
            FrameBytes::Borrowed(s) => RawFrame { raw_content: FrameBytes::Borrowed(*s) },
            FrameBytes::Owned(v) => RawFrame {
                raw_content: FrameBytes::Owned(slice_to_vec(v.as_slice())),
            },
        }
    }
}

/// A flag that a frame type's flags octet can carry.
pub trait Flag {
    /// The bit mask that stands for this flag.
    spec fn spec_bitmask(&self) -> u8;

    /// Returns the bit mask that represents the flag.
    fn bitmask(&self) -> (mask: u8)
        ensures
            mask == self.spec_bitmask(),
    ;
}

/// Placeholder flag type for frame types that define no flags: its bit
/// mask is 0, so no flag ever tests as set.
pub struct NoFlag;

impl Flag for NoFlag {
    open spec fn spec_bitmask(&self) -> u8 {
        0
    }

    fn bitmask(&self) -> (mask: u8) {
        0
    }
}

/// Capability contract that every concrete HTTP/2 frame type satisfies:
/// construction from a raw frame, flag queries, and reconstruction of the
/// header from the frame's current state.
pub trait Frame<'a>: Sized {
    /// The flag type this frame kind accepts, so that only its own flags
    /// can be queried on it.
    type FlagType: Flag;

    /// The header corresponding to the frame's current field values — not
    /// necessarily byte-identical to the header it was parsed from, since
    /// a frame may be mutated before re-serialization.
    spec fn spec_header(&self) -> FrameHeader;

    /// Creates a frame of this concrete type from the given raw frame's
    /// header and payload, if possible.
    ///
    /// Returns `None` on any structural mismatch — a wrong frame type in
    /// the header, a payload that cannot be decoded under this type's
    /// rules, invalid padding — without preserving the specific reason.
    fn from_raw(raw_frame: &'a RawFrame<'a>) -> Option<Self>;

    /// Tests whether the frame's flags octet has the given flag's mask
    /// bits set.
    fn is_set(&self, flag: Self::FlagType) -> (set: bool)
        ensures
            set == (self.spec_header().2 & flag.spec_bitmask() != 0),
    ;

    /// Returns the identifier of the stream this frame is associated with.
    fn get_stream_id(&self) -> (id: StreamId)
        ensures
            id == self.spec_header().3,
    ;

    /// Returns the header based on the current state of the frame.
    fn get_header(&self) -> (h: FrameHeader)
        ensures
            h == self.spec_header(),
    ;
}

/// A sink that frames are serialized into. Implementors record exactly the
/// bytes handed to them, in order; either write may fail, and a failure
/// may leave the sink partially written — no rollback is promised.
pub trait FrameBuilder {
    /// The sink's write-failure type, surfaced unchanged to whoever
    /// serializes into it.
    type Error;

    /// All bytes the sink has accepted so far.
    spec fn written(&self) -> Seq<u8>;

    /// Writes the exact 9-byte wire form of `header`.
    fn write_header(&mut self, header: FrameHeader) -> (r: Result<(), Self::Error>)
        ensures
            r is Ok ==> final(self).written() == old(self).written() + pack_header_spec(header),
    ;

    /// Writes all of `buf`.
    fn write_all(&mut self, buf: &[u8]) -> (r: Result<(), Self::Error>)
        ensures
            r is Ok ==> final(self).written() == old(self).written() + buf@,
    ;
}

/// A growable in-memory sink: writing appends to the vector and never
/// fails.
impl FrameBuilder for Vec<u8> {
    type Error = ();

    open spec fn written(&self) -> Seq<u8> {
        self@
    }

    fn write_header(&mut self, header: FrameHeader) -> (r: Result<(), ()>) {
        let bytes = pack_header(&header);
        self.write_all(bytes.as_slice())
    }

    fn write_all(&mut self, buf: &[u8]) -> (r: Result<(), ()>) {
        let mut i: usize = 0;
        while i < buf.len()
            invariant
                i <= buf@.len(),
                self@ == old(self)@ + buf@.take(i as int),
            decreases buf@.len() - i,
        {
            self.push(buf[i]);
            proof {
                assert(old(self)@ + buf@.take(i as int) + seq![buf@[i as int]]
                    =~= old(self)@ + buf@.take(i + 1));
            }
            i = i + 1;
        }
        proof {
            assert(buf@.take(buf@.len() as int) =~= buf@);
        }
        Ok(())
    }
}

/// Intermediate representation of an HTTP/2 frame that can be serialized
/// into its on-the-wire form.
pub trait FrameIR {
    /// When the value is well formed enough to serialize.
    spec fn wf(&self) -> bool;

    /// The exact bytes serialization writes.
    spec fn wire_bytes(&self) -> Seq<u8>;

    /// Writes out the on-the-wire representation of the frame — the 9
    /// header bytes, then the payload — into the given sink, consuming the
    /// frame. A sink failure is returned unchanged, and the sink may then
    /// be left partially written.
    fn serialize_into<B: FrameBuilder>(self, builder: &mut B) -> (r: Result<(), B::Error>)
        requires
            self.wf(),
        ensures
            r is Ok ==> final(builder).written() == old(builder).written() + self.wire_bytes(),
    ;
}

impl<'a> FrameIR for RawFrame<'a> {
    /// Serialization decodes the header first, so at least 9 bytes must be
    /// held.
    open spec fn wf(&self) -> bool {
        self@.len() >= 9
    }

    /// The packed form of the decoded header — reserved bit cleared —
    /// followed by the payload verbatim.
    open spec fn wire_bytes(&self) -> Seq<u8> {
        pack_header_spec(self.spec_header()) + self.spec_payload()
    }

    fn serialize_into<B: FrameBuilder>(self, builder: &mut B) -> (r: Result<(), B::Error>) {
        let h = self.header();
        proof {
            assert((old(builder).written() + pack_header_spec(self.spec_header()))
                + self.spec_payload() =~= old(builder).written() + self.wire_bytes());
        }
        match builder.write_header(h) {
            Ok(_) => {},
            Err(e) => {
                return Err(e);
            },
        }
        builder.write_all(self.payload())
    }
}

/// Borrowed vs. owned equivalence: every observation of a raw frame is a
/// function of the held bytes alone, so two frames holding equal byte
/// content — however constructed — agree on their header, payload, and
/// serialized form.
pub proof fn lemma_content_determines_frame<'a, 'b>(a: RawFrame<'a>, b: RawFrame<'b>)
    requires
        a@ == b@,
    ensures
        a.spec_header() == b.spec_header(),
        a.spec_payload() == b.spec_payload(),
{
}

/// Zero-copy serialization law: a raw frame whose stored header already
/// has the reserved bit clear writes through a sink exactly the bytes it
/// holds, since re-encoding its decoded header reproduces the first 9
/// bytes verbatim.
pub proof fn lemma_wire_bytes_verbatim<'a>(f: RawFrame<'a>)
    requires
        f@.len() >= 9,
        f@[5] < 0x80,
    ensures
        f.wire_bytes() == f@,
{
    crate::header::lemma_pack_unpack_identity(f@.take(9));
    assert(pack_header_spec(f.spec_header()) + f.spec_payload() =~= f@);
}

/// Exact-slice extraction: under the conditions in which [`RawFrame::parse`]
/// succeeds, the frame it returns holds exactly the first `9 + length`
/// bytes of the source buffer, never any trailing bytes beyond them.
pub proof fn lemma_parsed_frame_is_exact_prefix<'a>(buf: Seq<u8>, frame: RawFrame<'a>)
    requires
        buf.len() >= 9,
        buf.len() >= 9 + unpack_header_spec(buf.take(9)).0,
        frame@ == buf.take(9 + unpack_header_spec(buf.take(9)).0 as int),
    ensures
        frame@.len() == 9 + unpack_header_spec(buf.take(9)).0,
        frame@ == buf.take(frame@.len() as int),
        frame@.len() <= buf.len(),
{
}

} // verus!
