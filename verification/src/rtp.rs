//! Minimal media-packet (RTP) header parsing: just enough of the fixed-size
//! header to extract the 16-bit sequence number and the offset at which the
//! payload begins. A datagram that fails any header check is judged invalid
//! and is discarded by the caller without affecting the sequence cursor.

use vstd::prelude::*;

verus! {

/// The fields the pipeline needs from a parsed packet header.
#[derive(Clone, Copy, PartialEq, Eq, Structural, Debug)]
pub struct RtpHeader {
    /// The packet's 16-bit sequence number.
    pub seq: u16,
    /// Offset of the first payload byte within the datagram.
    pub payload_offset: usize,
}

/// Number of contributing-source entries announced in the first header byte.
pub open spec fn rtp_csrc_count(d: Seq<u8>) -> int {
    (d[0] & 0x0f) as int
}

/// End of the fixed header plus the contributing-source list.
pub open spec fn rtp_csrc_end(d: Seq<u8>) -> int {
    12 + 4 * rtp_csrc_count(d)
}

/// Whether the header announces an extension block.
pub open spec fn rtp_has_extension(d: Seq<u8>) -> bool {
    d[0] & 0x10 != 0
}

/// Whether the header announces trailing padding.
pub open spec fn rtp_has_padding(d: Seq<u8>) -> bool {
    d[0] & 0x20 != 0
}

/// Length in bytes of the extension data, read from the 16-bit count of
/// 32-bit words at the start of the extension block.
pub open spec fn rtp_extension_len(d: Seq<u8>) -> int {
    4 * ((d[rtp_csrc_end(d) + 2] as int) * 256 + d[rtp_csrc_end(d) + 3])
}

/// Offset of the first payload byte: past the fixed header, the
/// contributing-source list, and the extension block if present.
pub open spec fn rtp_payload_offset(d: Seq<u8>) -> int {
    if rtp_has_extension(d) {
        rtp_csrc_end(d) + 4 + rtp_extension_len(d)
    } else {
        rtp_csrc_end(d)
    }
}

/// The packet's sequence number, big-endian in header bytes 2 and 3.
pub open spec fn rtp_seq(d: Seq<u8>) -> u16 {
    (((d[2] as int) * 256 + d[3]) as u16)
}

/// Whether the datagram passes every header check: long enough for the fixed
/// header, protocol version 2, extension block (if announced) contained in
/// the datagram, payload offset within bounds, and padding (if announced)
/// present, nonzero and contained in the datagram.
pub open spec fn rtp_valid(d: Seq<u8>) -> bool {
    &&& d.len() >= 12
    &&& (d[0] & 0xc0) >> 6 == 2
    &&& (rtp_has_extension(d) ==> rtp_csrc_end(d) + 4 <= d.len() && rtp_csrc_end(d) + 4
        + rtp_extension_len(d) <= d.len())
    &&& rtp_payload_offset(d) <= d.len()
    &&& (rtp_has_padding(d) ==> rtp_payload_offset(d) < d.len() && d[d.len() - 1] != 0
        && rtp_payload_offset(d) + d[d.len() - 1] <= d.len())
}

/// Parse the datagram's header, returning its sequence number and payload
/// offset, or `None` exactly when some header check fails.
pub fn parse_rtp_header(d: &Vec<u8>) -> (r: Option<RtpHeader>)
    ensures
        r is Some <==> rtp_valid(d@),
        r matches Some(h) ==> h.seq == rtp_seq(d@) && h.payload_offset == rtp_payload_offset(d@),
{
    if d.len() < 12 {
        return None;
    }
    let b0 = d[0];
    if (b0 & 0xc0) >> 6 != 2 {
        return None;
    }
    let csrc_count = (b0 & 0x0f) as usize;
    let csrc_end: usize = 12 + 4 * csrc_count;
    let payload_offset: usize;
    if b0 & 0x10 != 0 {
        if csrc_end + 4 > d.len() {
            return None;
        }
        let ext_len: usize = 4 * ((d[csrc_end + 2] as usize) * 256 + (d[csrc_end + 3] as usize));
        if ext_len > d.len() - (csrc_end + 4) {
            return None;
        }
        payload_offset = csrc_end + 4 + ext_len;
    } else {
        if csrc_end > d.len() {
            return None;
        }
        payload_offset = csrc_end;
    }
    if b0 & 0x20 != 0 {
        if payload_offset >= d.len() {
            return None;
        }
        let pad = d[d.len() - 1];
        if pad == 0 {
            return None;
        }
        if pad as usize > d.len() - payload_offset {
            return None;
        }
    }
    let seq: u16 = (d[2] as u16) * 256 + (d[3] as u16);
    Some(RtpHeader { seq, payload_offset })
}

/// Copy the datagram's bytes from `off` to its end: the payload that remains
/// once the header is stripped.
pub fn strip_header(d: &Vec<u8>, off: usize) -> (r: Vec<u8>)
    requires
        off <= d.len(),
    ensures
        r@ == d@.subrange(off as int, d@.len() as int),
{
    let mut out: Vec<u8> = Vec::new();
    let mut i: usize = off;
    while i < d.len()
        invariant
            off <= i <= d.len(),
            out@ == d@.subrange(off as int, i as int),
        decreases d.len() - i,
    {
        out.push(d[i]);
        proof {
            assert(d@.subrange(off as int, i + 1 as int) =~= d@.subrange(off as int, i as int).push(
                d@[i as int]));
        }
        i = i + 1;
    }
    out
}

} // verus!
