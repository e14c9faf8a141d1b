//! The write adapter: turns each byte-stream write into exactly one outbound
//! Binary message sent through the shared channel, flushes on request, and on
//! destruction asks for one best-effort Close frame.
//!
//! The adapter decides; the caller drives the shared outbound channel. One
//! write call is `write_frame` (the message to enqueue), the non-blocking
//! enqueue attempt on the channel, and `write` (the byte-stream result for
//! the channel's answer). A flush call is the non-blocking flush attempt and
//! `flush`. On destruction the caller enqueues `close_frame()` once and
//! flushes, discarding every failure.

use vstd::prelude::*;

use crate::msg::EnqueueResult;
use crate::msg::FlushResult;
use crate::msg::Message;
use crate::msg::StreamError;

verus! {

/// Adapts the shared outbound message channel to a push-based byte stream.
pub struct WsWriteWrapper {}

impl WsWriteWrapper {
    /// A fresh write adapter.
    pub fn new() -> (w: WsWriteWrapper) {
        WsWriteWrapper {}
    }

    /// Frames one write: the entire buffer becomes the payload of a single
    /// Binary message — a write is never split into multiple frames.
    pub fn write_frame(&self, buf: &Vec<u8>) -> (m: Message)
        ensures
            m matches Message::Binary(p) && p@ == buf@,
    {
        Message::Binary(buf.clone())
    }

    /// Completes a write call from the channel's answer to enqueuing the
    /// frame. Accepted means the whole buffer is in the send queue — the full
    /// buffer length is reported, though nothing is yet on the wire. A
    /// saturated channel means no progress and no side effect: the caller
    /// retries with the identical buffer. A channel failure is propagated
    /// unchanged.
    pub fn write(&self, buf: &Vec<u8>, enq: EnqueueResult) -> (r: Result<usize, StreamError>)
        ensures
            enq is Accepted ==> (r matches Ok(n) && n == buf@.len()),
            enq matches EnqueueResult::NotReady(_) ==> r == Err::<usize, StreamError>(
                StreamError::WouldBlock,
            ),
            enq is Failed ==> r == Err::<usize, StreamError>(StreamError::Other),
    {
        match enq {
            EnqueueResult::Accepted => Ok(buf.len()),
            EnqueueResult::NotReady(_) => Err(StreamError::WouldBlock),
            EnqueueResult::Failed => Err(StreamError::Other),
        }
    }

    /// Completes a flush call from the channel's answer to driving its
    /// pending queue: complete is success, not-yet is would-block, and a
    /// channel failure is propagated unchanged.
    pub fn flush(&self, fl: FlushResult) -> (r: Result<(), StreamError>)
        ensures
            fl is Complete ==> r is Ok,
            fl is NotReady ==> r == Err::<(), StreamError>(StreamError::WouldBlock),
            fl is Failed ==> r == Err::<(), StreamError>(StreamError::Other),
    {
        match fl {
            FlushResult::Complete => Ok(()),
            FlushResult::NotReady => Err(StreamError::WouldBlock),
            FlushResult::Failed => Err(StreamError::Other),
        }
    }

    /// Shutdown always reports immediate success: no synchronous graceful
    /// close is performed at this layer.
    pub fn shutdown(&self) -> (r: Result<(), StreamError>)
        ensures
            r is Ok,
    {
        Ok(())
    }

    /// The one frame enqueued, best-effort, when the adapter is destroyed: a
    /// Close with no reason. Whatever the channel answers to it, and to the
    /// flush after it, is discarded.
    pub fn close_frame(&self) -> (m: Message)
        ensures
            m == Message::Close(None),
    {
        Message::Close(None)
    }
}

} // verus!
