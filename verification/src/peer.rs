//! One established logical connection as a byte-stream peer, and the
//! transport-reversal adapter that presents such a peer as the low-level
//! stream a message-framing codec expects.

use vstd::prelude::*;

use crate::debt::chunk_of;
use crate::debt::rest_of;
use crate::msg::EnqueueResult;
use crate::msg::FlushResult;
use crate::msg::Message;
use crate::msg::PollEvent;
use crate::msg::StreamError;
use crate::read::ReadStart;
use crate::read::SourceReply;
use crate::read::WsReadWrapper;
use crate::write::WsWriteWrapper;

verus! {

/// A byte-stream peer: the read half and the write half of one established
/// logical connection, constructed once and living for its duration.
pub struct Peer {
    pub reader: WsReadWrapper,
    pub writer: WsWriteWrapper,
}

/// Transport-reversal adapter: pure delegation that forwards every
/// byte-stream call unchanged to an already-established peer, so a framing
/// layer can run atop any peer that satisfies the byte-stream contract. It
/// carries no buffering and no state of its own.
pub struct PeerForWs(pub Peer);

impl PeerForWs {
    /// Forwards the entry of a read call unchanged to the peer's read half.
    pub fn read(&mut self, buf_len: usize) -> (r: ReadStart)
        ensures
            r is PollSource <==> old(self).0.reader.debt.pending().len() == 0,
            r is PollSource ==> final(self).0.reader.debt.pending() == old(
                self,
            ).0.reader.debt.pending(),
            r matches ReadStart::Data(chunk) ==> {
                &&& chunk@ == chunk_of(old(self).0.reader.debt.pending(), buf_len as nat)
                &&& final(self).0.reader.debt.pending() == rest_of(
                    old(self).0.reader.debt.pending(),
                    buf_len as nat,
                )
                &&& chunk@ + final(self).0.reader.debt.pending() == old(
                    self,
                ).0.reader.debt.pending()
            },
            final(self).0.writer == old(self).0.writer,
    {
        self.0.reader.read(buf_len)
    }

    /// Forwards a poll outcome unchanged to the peer's read half.
    pub fn on_source_event(&mut self, buf_len: usize, event: PollEvent) -> (r: SourceReply)
        requires
            old(self).0.reader.debt.pending().len() == 0,
        ensures
            event matches PollEvent::Msg(Message::Close(_)) ==> r
                == SourceReply::Done(Err(StreamError::BrokenPipe)),
            event is End ==> r == SourceReply::Done(Err(StreamError::BrokenPipe)),
            event matches PollEvent::Msg(Message::Ping(p)) ==> (r matches
                SourceReply::ReplyPing(q) && q@ == p@),
            event matches PollEvent::Msg(Message::Pong(_)) ==> (r matches
                SourceReply::Done(res) && res matches Ok(v) && v@.len() == 0),
            event matches PollEvent::Msg(Message::Text(p)) ==> (r matches SourceReply::Done(res)
                && res matches Ok(chunk) && chunk@ == chunk_of(p@, buf_len as nat)
                && final(self).0.reader.debt.pending() == rest_of(p@, buf_len as nat)
                && chunk@ + final(self).0.reader.debt.pending() == p@),
            event matches PollEvent::Msg(Message::Binary(p)) ==> (r matches SourceReply::Done(res)
                && res matches Ok(chunk) && chunk@ == chunk_of(p@, buf_len as nat)
                && final(self).0.reader.debt.pending() == rest_of(p@, buf_len as nat)
                && chunk@ + final(self).0.reader.debt.pending() == p@),
            event is NotReady ==> r == SourceReply::Done(Err(StreamError::WouldBlock)),
            event is Failed ==> r == SourceReply::Done(Err(StreamError::Other)),
            final(self).0.writer == old(self).0.writer,
    {
        self.0.reader.on_source_event(buf_len, event)
    }

    /// Forwards the framing of a write call unchanged to the peer's write
    /// half.
    pub fn write_frame(&self, buf: &Vec<u8>) -> (m: Message)
        ensures
            m matches Message::Binary(p) && p@ == buf@,
    {
        self.0.writer.write_frame(buf)
    }

    /// Forwards the completion of a write call unchanged to the peer's write
    /// half.
    pub fn write(&self, buf: &Vec<u8>, enq: EnqueueResult) -> (r: Result<usize, StreamError>)
        ensures
            enq is Accepted ==> (r matches Ok(n) && n == buf@.len()),
            enq matches EnqueueResult::NotReady(_) ==> r == Err::<usize, StreamError>(
                StreamError::WouldBlock,
            ),
            enq is Failed ==> r == Err::<usize, StreamError>(StreamError::Other),
    {
        self.0.writer.write(buf, enq)
    }

    /// Forwards the completion of a flush call unchanged to the peer's write
    /// half.
    pub fn flush(&self, fl: FlushResult) -> (r: Result<(), StreamError>)
        ensures
            fl is Complete ==> r is Ok,
            fl is NotReady ==> r == Err::<(), StreamError>(StreamError::WouldBlock),
            fl is Failed ==> r == Err::<(), StreamError>(StreamError::Other),
    {
        self.0.writer.flush(fl)
    }

    /// Forwards shutdown unchanged to the peer's write half: immediate
    /// success.
    pub fn shutdown(&self) -> (r: Result<(), StreamError>)
        ensures
            r is Ok,
    {
        self.0.writer.shutdown()
    }
}

} // verus!
