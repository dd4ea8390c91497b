//! Relay core for a message bridge between an event-driven dataflow runtime
//! and an external transport (datagram socket or publish/subscribe bus).
//!
//! The core is pure logic: a frame codec, a bounded FIFO relay queue, topic
//! namespace bridging, a cooperative run flag, and the step functions of the
//! transport listener and the dispatch loop. All I/O stays with the caller,
//! which hands the core plain byte values and carries out the steps it returns.

pub mod codec;
pub mod dispatch;
pub mod lifecycle;
pub mod listener;
pub mod queue;
pub mod topics;
