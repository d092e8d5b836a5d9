//! Bridging of live media feeds (session-protocol and multicast ingestion)
//! into a single ordered byte stream.
//!
//! The core is the packet filtering and reassembly pipeline: a sequence-number
//! filter deciding which packets are forwarded, a minimal media-packet header
//! parser, the per-iteration decisions of the two producer loops, and a model
//! of the bounded producer/consumer bridge that carries accepted payloads to
//! the consumer in FIFO order.

pub mod bridge;
pub mod filter;
pub mod interface;
pub mod producer;
pub mod rtp;
