//! Extractor for the HTTP/2 padding envelope.
//!
//! A padded payload is laid out as `[pad_length][data][pad_length zero
//! bytes]`: frame-type decoders call [`strip_padding`] to recover the data
//! between the length byte and the trailing padding.

use vstd::prelude::*;
use vstd::slice::slice_subrange;

verus! {

/// Splits a padded payload into its actual data and the padding length.
///
/// Fails when the payload is empty (no padding-length byte can be read) or
/// when the declared padding length is not strictly less than the total
/// payload length (the length byte itself consumes one of the payload
/// bytes). On success, returns the slice strictly between the length byte
/// and the trailing padding, without copying, and the padding length.
///
/// Whether the trailing padding bytes are actually zero is not checked
/// here; that protocol-level sanity check is left to the caller.
pub fn strip_padding(payload: &[u8]) -> (r: Option<(&[u8], u8)>)
    ensures
        match r {
            Some(p) => {
                &&& payload@.len() > 0
                &&& payload@[0] < payload@.len()
                &&& p.1 == payload@[0]
                &&& p.0@ == payload@.subrange(1, payload@.len() - payload@[0])
            },
            None => payload@.len() == 0 || payload@[0] >= payload@.len(),
        },
{
    if payload.len() == 0 {
        // No padding-length byte can be read, even though the frame should
        // be padded.
        return None;
    }
    let pad_len: usize = payload[0] as usize;
    if pad_len >= payload.len() {
        // Invalid: the padding length MUST be less than the total payload
        // size.
        return None;
    }
    Some((slice_subrange(payload, 1, payload.len() - pad_len), pad_len as u8))
}

} // verus!
