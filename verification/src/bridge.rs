//! The producer/consumer bridge: a bounded, ordered, single-producer /
//! single-consumer queue of accepted payloads, the sole hand-off between a
//! producer loop and the byte-stream consumer.
//!
//! The channel is modelled by explicit state transitions: a send on a full
//! channel reports `Full`, which is the point at which a real producer
//! suspends until a receive frees a slot; a send after the consumer is gone
//! reports `Disconnected`, the cancellation signal; a receive on an empty
//! channel whose producer has closed reports `Closed`, the end of the stream.

use vstd::prelude::*;

verus! {

/// Abstract state of the bridge: the queued payloads, oldest first, the
/// fixed capacity, and which of the two sides has been dropped.
pub struct BridgeState {
    /// Queued payloads, oldest first.
    pub items: Seq<Seq<u8>>,
    /// Fixed slot count of the channel.
    pub capacity: nat,
    /// Whether the producer side has been dropped.
    pub producer_closed: bool,
    /// Whether the consumer side has been dropped.
    pub consumer_closed: bool,
}

/// What a send attempt resolves to.
#[derive(Clone, Copy, PartialEq, Eq, Structural, Debug)]
pub enum SendOutcome {
    /// The payload was enqueued.
    Sent,
    /// No free slot: the sender must wait for a receive.
    Full,
    /// The consumer side is gone; the send fails.
    Disconnected,
}

/// What a receive attempt resolves to.
pub enum RecvOutcome {
    /// The oldest queued payload.
    Item(Vec<u8>),
    /// Nothing queued yet: the receiver must wait for a send.
    Empty,
    /// Nothing queued and the producer side is gone: end of stream.
    Closed,
}

impl BridgeState {
    /// The queue never holds more than its capacity.
    pub open spec fn wf(self) -> bool {
        self.items.len() <= self.capacity && self.capacity >= 1
    }

    /// What a send attempt resolves to in this state.
    pub open spec fn send_outcome(self) -> SendOutcome {
        if self.consumer_closed {
            SendOutcome::Disconnected
        } else if self.items.len() < self.capacity {
            SendOutcome::Sent
        } else {
            SendOutcome::Full
        }
    }

    /// The state after a successful send of `item`.
    pub open spec fn after_send(self, item: Seq<u8>) -> BridgeState {
        BridgeState {
            items: self.items.push(item),
            capacity: self.capacity,
            producer_closed: self.producer_closed,
            consumer_closed: self.consumer_closed,
        }
    }

    /// The state after a successful receive.
    pub open spec fn after_recv(self) -> BridgeState {
        BridgeState {
            items: self.items.drop_first(),
            capacity: self.capacity,
            producer_closed: self.producer_closed,
            consumer_closed: self.consumer_closed,
        }
    }

    /// The payload a receive returns in this state: the oldest one.
    pub open spec fn recv_item(self) -> Seq<u8> {
        self.items[0]
    }

    /// Whether a receive in this state signals end of stream.
    pub open spec fn end_of_stream(self) -> bool {
        self.items.len() == 0 && self.producer_closed
    }
}

/// The bridge channel itself: a bounded FIFO queue with the liveness of its
/// two sides.
pub struct BridgeChannel {
    queue: Vec<Vec<u8>>,
    capacity: usize,
    producer_closed: bool,
    consumer_closed: bool,
}

impl View for BridgeChannel {
    type V = BridgeState;

    closed spec fn view(&self) -> BridgeState {
        BridgeState {
            items: self.queue.deep_view(),
            capacity: self.capacity as nat,
            producer_closed: self.producer_closed,
            consumer_closed: self.consumer_closed,
        }
    }
}

impl BridgeChannel {
    /// Open a fresh channel of the given capacity, both sides live.
    pub fn open(capacity: usize) -> (ch: BridgeChannel)
        requires
            capacity >= 1,
        ensures
            ch@.wf(),
            ch@.items.len() == 0,
            ch@.capacity == capacity,
            !ch@.producer_closed,
            !ch@.consumer_closed,
    {
        BridgeChannel {
            queue: Vec::new(),
            capacity,
            producer_closed: false,
            consumer_closed: false,
        }
    }

    /// Attempt to enqueue `item`: enqueued when a slot is free and the
    /// consumer is live, `Full` when every slot is taken (the sender waits),
    /// `Disconnected` when the consumer side is gone.
    pub fn try_send(&mut self, item: Vec<u8>) -> (r: SendOutcome)
        requires
            old(self)@.wf(),
        ensures
            final(self)@.wf(),
            r == old(self)@.send_outcome(),
            r is Sent ==> final(self)@ == old(self)@.after_send(item@),
            !(r is Sent) ==> final(self)@ == old(self)@,
    {
        if self.consumer_closed {
            SendOutcome::Disconnected
        } else if self.queue.len() < self.capacity {
            let ghost pre = self.queue.deep_view();
            self.queue.push(item);
            proof {
                assert(self.queue.deep_view() =~~= pre.push(item@));
            }
            SendOutcome::Sent
        } else {
            SendOutcome::Full
        }
    }

    /// Attempt to dequeue: the oldest payload when one is queued, `Empty`
    /// when none is and the producer is live (the receiver waits), `Closed`
    /// when none is and the producer side is gone.
    pub fn try_recv(&mut self) -> (r: RecvOutcome)
        requires
            old(self)@.wf(),
        ensures
            final(self)@.wf(),
            old(self)@.items.len() > 0 ==> (r matches RecvOutcome::Item(v) && v@ == old(
                self,
            )@.recv_item() && final(self)@ == old(self)@.after_recv()),
            old(self)@.items.len() == 0 ==> final(self)@ == old(self)@,
            old(self)@.end_of_stream() ==> r is Closed,
            old(self)@.items.len() == 0 && !old(self)@.producer_closed ==> r is Empty,
    {
        if self.queue.len() > 0 {
            let ghost pre = self.queue.deep_view();
            let v = self.queue.remove(0);
            proof {
                assert(self.queue.deep_view() =~~= pre.drop_first());
            }
            RecvOutcome::Item(v)
        } else if self.producer_closed {
            RecvOutcome::Closed
        } else {
            RecvOutcome::Empty
        }
    }

    /// Drop the producer side: after the queue drains, receives report
    /// end of stream.
    pub fn close_producer(&mut self)
        requires
            old(self)@.wf(),
        ensures
            final(self)@.wf(),
            final(self)@ == (BridgeState { producer_closed: true, ..old(self)@ }),
    {
        self.producer_closed = true;
    }

    /// Drop the consumer side: every later send fails.
    pub fn close_consumer(&mut self)
        requires
            old(self)@.wf(),
        ensures
            final(self)@.wf(),
            final(self)@ == (BridgeState { consumer_closed: true, ..old(self)@ }),
    {
        self.consumer_closed = true;
    }
}

/// FIFO law: from an empty channel whose consumer is live, sends of `a`, `b`
/// and `c` all succeed, and the three following receives return exactly `a`,
/// `b`, `c`, in that order.
pub proof fn lemma_bridge_fifo(s0: BridgeState, a: Seq<u8>, b: Seq<u8>, c: Seq<u8>)
    requires
        s0.wf(),
        s0.items.len() == 0,
        !s0.consumer_closed,
        s0.capacity >= 3,
    ensures
        s0.send_outcome() is Sent,
        s0.after_send(a).send_outcome() is Sent,
        s0.after_send(a).after_send(b).send_outcome() is Sent,
        ({
            let s3 = s0.after_send(a).after_send(b).after_send(c);
            &&& s3.recv_item() == a
            &&& s3.after_recv().recv_item() == b
            &&& s3.after_recv().after_recv().recv_item() == c
            &&& s3.after_recv().after_recv().after_recv().items.len() == 0
        }),
{
    let s3 = s0.after_send(a).after_send(b).after_send(c);
    assert(s3.items =~= seq![a, b, c]);
    assert(s3.after_recv().items =~= seq![b, c]);
    assert(s3.after_recv().after_recv().items =~= seq![c]);
}

/// Backpressure law: on a full channel a send does not complete — the sender
/// must wait — and one receive makes the next send succeed; once the consumer
/// side is dropped, a send (waiting or not) resolves to `Disconnected`.
pub proof fn lemma_bridge_backpressure(s: BridgeState)
    requires
        s.wf(),
        s.items.len() == s.capacity,
    ensures
        !s.consumer_closed ==> s.send_outcome() is Full,
        !s.consumer_closed ==> s.after_recv().send_outcome() is Sent,
        (BridgeState { consumer_closed: true, ..s }).send_outcome() is Disconnected,
{
}

} // verus!
