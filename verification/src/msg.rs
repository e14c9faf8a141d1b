//! Plain-value models of the frames and signals exchanged with the
//! message-transport collaborators.

use vstd::prelude::*;

verus! {

/// One discrete frame unit of the message transport: application data
/// (`Text`, `Binary`), keepalive control frames (`Ping`, `Pong`), or the
/// end-of-connection frame (`Close`, with an optional reason payload).
#[derive(Clone, Debug, PartialEq)]
pub enum Message {
    Text(Vec<u8>),
    Binary(Vec<u8>),
    Ping(Vec<u8>),
    Pong(Vec<u8>),
    Close(Option<Vec<u8>>),
}

/// What one non-blocking poll of the inbound message source produced.
#[derive(Clone, Debug, PartialEq)]
pub enum PollEvent {
    /// A whole message is ready.
    Msg(Message),
    /// No message is ready now; retry once the scheduler observes readiness.
    NotReady,
    /// The source is exhausted: no further message will ever arrive.
    End,
    /// The source failed.
    Failed,
}

/// The outbound sink's answer to a non-blocking enqueue attempt.
#[derive(Clone, Debug, PartialEq)]
pub enum EnqueueResult {
    /// The message was accepted into the send queue.
    Accepted,
    /// The sink is saturated; the message is handed back untouched.
    NotReady(Message),
    /// The sink failed.
    Failed,
}

/// The outbound sink's answer to a non-blocking flush attempt.
#[derive(Clone, Debug, PartialEq)]
pub enum FlushResult {
    /// The pending queue was driven to completion.
    Complete,
    /// The queue is not yet empty; retry once the scheduler observes readiness.
    NotReady,
    /// The sink failed.
    Failed,
}

/// Why a byte-stream call produced no bytes.
#[derive(Clone, Copy, Debug, PartialEq, Eq, Structural)]
pub enum StreamError {
    /// No progress now; not an application error; always retryable.
    WouldBlock,
    /// The peer closed or the inbound stream ended; terminal.
    BrokenPipe,
    /// A failure of the underlying source or sink, propagated unchanged.
    Other,
}

} // verus!
