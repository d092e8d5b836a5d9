//! The sequence filter: a pure decision over a running sequence-number cursor
//! that judges, packet by packet, whether an arriving sequence number is a
//! plausible next packet (within a forward acceptance window, with 16-bit
//! wraparound) or a stale duplicate / runaway to be discarded.

use vstd::prelude::*;

verus! {

/// Width of the forward acceptance window, in sequence numbers.
pub const WINDOW: u16 = 3000;

/// Cursor over the 16-bit sequence numbers of accepted packets.
///
/// `has_first` distinguishes "no packet accepted yet" from a legitimate
/// current sequence number of zero.
#[derive(Clone, Copy, PartialEq, Eq, Structural, Debug)]
pub struct SeqCursor {
    /// Whether any packet has been accepted yet.
    pub has_first: bool,
    /// Sequence number of the last accepted packet; meaningful only when
    /// `has_first` holds.
    pub current: u16,
}

/// Upper edge of the forward acceptance window, `current + WINDOW` modulo
/// 2^16.
pub open spec fn win_high(current: u16) -> int {
    if current + WINDOW < 65536 {
        current + WINDOW
    } else {
        current + WINDOW - 65536
    }
}

/// Whether `next` lies strictly ahead of `current` by at most `WINDOW`,
/// accounting for wraparound of the window across the 16-bit rollover.
pub open spec fn in_forward_window(current: u16, next: u16) -> bool {
    if win_high(current) > current {
        current < next && next <= win_high(current)
    } else {
        current < next || next <= win_high(current)
    }
}

/// How far `next` is ahead of `current`, modulo 2^16; `0` means a repeat of
/// `current` itself.
pub open spec fn forward_distance(current: u16, next: u16) -> int {
    if next >= current {
        next - current
    } else {
        next + 65536 - current
    }
}

/// Whether the filter accepts `next` in cursor state `c`: always for the very
/// first packet, afterwards exactly when `next` falls in the forward window.
pub open spec fn filter_accepts(c: SeqCursor, next: u16) -> bool {
    !c.has_first || in_forward_window(c.current, next)
}

/// The cursor after offering `next`: advanced to `next` on acceptance,
/// unchanged on rejection.
pub open spec fn filter_step(c: SeqCursor, next: u16) -> SeqCursor {
    if filter_accepts(c, next) {
        SeqCursor { has_first: true, current: next }
    } else {
        c
    }
}

impl SeqCursor {
    /// A fresh cursor that has accepted nothing yet.
    pub fn new() -> (r: SeqCursor)
        ensures
            !r.has_first,
    {
        SeqCursor { has_first: false, current: 0 }
    }
}

/// Decide whether the packet with sequence number `next` is forwarded, and on
/// acceptance advance the cursor to it.
pub fn filter_reordered_seq(cursor: &mut SeqCursor, next: u16) -> (accepted: bool)
    ensures
        accepted == filter_accepts(*old(cursor), next),
        *final(cursor) == filter_step(*old(cursor), next),
{
    let c = cursor.current;
    let high: u16 = if c <= u16::MAX - WINDOW {
        c + WINDOW
    } else {
        c - (u16::MAX - WINDOW) - 1
    };
    let accepted = if !cursor.has_first {
        true
    } else if high > c {
        c < next && next <= high
    } else {
        c < next || next <= high
    };
    if accepted {
        cursor.current = next;
        cursor.has_first = true;
    }
    accepted
}

/// Membership in the forward window is exactly a forward distance of `1`
/// through `WINDOW`.
pub proof fn lemma_window_is_distance(current: u16, next: u16)
    ensures
        in_forward_window(current, next) <==> 1 <= forward_distance(current, next) <= WINDOW,
{
}

/// While no packet has been accepted yet, any `next` is accepted and
/// initializes the cursor to it.
pub proof fn lemma_first_packet_accepted(c: SeqCursor, next: u16)
    requires
        !c.has_first,
    ensures
        filter_accepts(c, next),
        filter_step(c, next) == (SeqCursor { has_first: true, current: next }),
{
}

/// A `next` strictly within the forward window of width `WINDOW` is accepted
/// and advances the cursor to it.
pub proof fn lemma_window_accepted(c: SeqCursor, next: u16)
    requires
        1 <= forward_distance(c.current, next) <= WINDOW,
    ensures
        filter_accepts(c, next),
        filter_step(c, next) == (SeqCursor { has_first: true, current: next }),
{
}

/// A repeat of the current sequence number is rejected and leaves the cursor
/// unchanged.
pub proof fn lemma_duplicate_rejected(c: SeqCursor, next: u16)
    requires
        c.has_first,
        next == c.current,
    ensures
        !filter_accepts(c, next),
        filter_step(c, next) == c,
{
}

/// A `next` whose forward distance exceeds `WINDOW` (it is `WINDOW + 1` or
/// more ahead, modulo 2^16) is rejected and leaves the cursor unchanged.
pub proof fn lemma_outside_window_rejected(c: SeqCursor, next: u16)
    requires
        c.has_first,
        forward_distance(c.current, next) > WINDOW,
    ensures
        !filter_accepts(c, next),
        filter_step(c, next) == c,
{
}

} // verus!
