//! Core of a TCP relay ("gender changer"): the message data model, the wire
//! framing used on the remote link, the per-direction pump logic, the FIFO
//! queue that survives reconnects, and the per-endpoint session state machine.
//!
//! All socket and thread handling lives outside this library; the functions
//! here are the pure decisions and transforms those loops drive.

pub mod codec;
pub mod error;
pub mod message;
pub mod pump;
pub mod queue;
pub mod relay;
