//! Adapter between a message-framed transport (whole Text/Binary/Ping/Pong/Close
//! frames) and a continuous, non-blocking byte-stream interface.
//!
//! Messages arrive atomically, but byte-stream consumers read arbitrary-size
//! chunks. The adapter carries the undelivered remainder of a message across
//! read calls (the "debt"), answers Ping frames inline without blocking the
//! data path, frames each write as exactly one Binary message, and tears the
//! connection down with a best-effort Close frame.
//!
//! Everything here is non-blocking and event-driven: the surrounding runtime
//! polls the inbound source and drives the outbound sink, and reports each
//! outcome to the adapter, which decides what the byte-stream caller sees.

pub mod debt;
pub mod msg;
pub mod peer;
pub mod read;
pub mod write;
