//! Per-iteration decisions of the two producer loops: which arriving packet
//! events are forwarded to the bridge, which are discarded, and when the loop
//! stops.
//!
//! Both adapters share the same shape: a packet event yields either a payload
//! to enqueue (the sequence filter accepted it) or nothing (a non-media
//! event, an unparseable datagram, or a filtered-out sequence number — all
//! discarded silently, the latter two without touching the cursor). The loop
//! then continues exactly while the iteration forwarded nothing or its send
//! succeeded; the first failed send stops it.

use vstd::prelude::*;
use crate::filter::{SeqCursor, filter_accepts, filter_step, filter_reordered_seq};
use crate::rtp::{rtp_valid, rtp_seq, rtp_payload_offset, parse_rtp_header, strip_header};
verus! {

/// One event pulled from a negotiated session.
pub enum SessionEvent {
    /// A media packet with its sequence number and payload.
    Media { seq: u16, payload: Vec<u8> },
    /// A control or statistics event: discarded, the cursor untouched.
    NonMedia,
}

/// One iteration of the session producer: the payload to forward, if any.
///
/// A non-media event is discarded without affecting the cursor; a media
/// event's sequence number is offered to the filter, and its payload is
/// forwarded exactly on acceptance.
pub fn session_step(cursor: &mut SeqCursor, event: SessionEvent) -> (r: Option<Vec<u8>>)
    ensures
        match event {
            SessionEvent::Media { seq, payload } => {
                &&& *final(cursor) == filter_step(*old(cursor), seq)
                &&& if filter_accepts(*old(cursor), seq) {
                    r matches Some(p) && p@ == payload@
                } else {
                    r is None
                }
            },
            SessionEvent::NonMedia => *final(cursor) == *old(cursor) && r is None,
        },
{
    match event {
        SessionEvent::Media { seq, payload } => {
            if filter_reordered_seq(cursor, seq) {
                Some(payload)
            } else {
                None
            }
        },
        SessionEvent::NonMedia => None,
    }
}

/// One iteration of the multicast producer: the payload to forward, if any.
///
/// A datagram that fails the header checks is discarded without affecting
/// the cursor; otherwise its sequence number is offered to the filter, and
/// on acceptance the header is stripped and the rest of the datagram is
/// forwarded.
pub fn multicast_step(cursor: &mut SeqCursor, datagram: &Vec<u8>) -> (r: Option<Vec<u8>>)
    ensures
        !rtp_valid(datagram@) ==> *final(cursor) == *old(cursor) && r is None,
        rtp_valid(datagram@) ==> {
            &&& *final(cursor) == filter_step(*old(cursor), rtp_seq(datagram@))
            &&& if filter_accepts(*old(cursor), rtp_seq(datagram@)) {
                r matches Some(p) && p@ == datagram@.subrange(
                    rtp_payload_offset(datagram@),
                    datagram@.len() as int,
                )
            } else {
                r is None
            }
        },
{
    match parse_rtp_header(datagram) {
        Some(h) => {
            if filter_reordered_seq(cursor, h.seq) {
                Some(strip_header(datagram, h.payload_offset))
            } else {
                None
            }
        },
        None => None,
    }
}

/// Whether the producer loop goes on after one iteration: it continues while
/// the iteration forwarded nothing or its send succeeded, and stops the
/// first time a send is attempted and fails.
pub fn producer_continues(forwarded: bool, send_ok: bool) -> (r: bool)
    ensures
        r == (!forwarded || send_ok),
{
    !forwarded || send_ok
}

} // verus!
