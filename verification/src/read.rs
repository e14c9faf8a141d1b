//! The read adapter: pulls whole messages from the inbound source, handles
//! control frames inline, and surfaces application payload as a byte stream.
//!
//! One byte-stream read call proceeds in steps, each driven by the caller:
//! `read` first consults the debt buffer and only directs the caller to poll
//! the source when no debt is outstanding; the poll's outcome then goes to
//! `on_source_event`. A Ping frame asks the caller for a best-effort Pong
//! enqueue on the shared outbound channel, reported back through
//! `on_pong_enqueue` and, when the enqueue was accepted, `on_pong_flush`.

use vstd::prelude::*;

use crate::debt::ReadDebt;
use crate::debt::chunk_of;
use crate::debt::rest_of;
use crate::msg::EnqueueResult;
use crate::msg::FlushResult;
use crate::msg::Message;
use crate::msg::PollEvent;
use crate::msg::StreamError;

verus! {

/// How a read call begins: either outstanding debt already answers it, or the
/// inbound source must be polled once.
#[derive(Debug, PartialEq)]
pub enum ReadStart {
    /// Bytes drained from the debt buffer; the read call is complete and the
    /// source was not consulted.
    Data(Vec<u8>),
    /// No debt is outstanding: poll the source once, non-blocking, and hand
    /// the outcome to `on_source_event`.
    PollSource,
}

/// How a read call ends after the source was polled: either a finished
/// byte-stream result, or one more step for the Ping reply.
#[derive(Debug, PartialEq)]
pub enum SourceReply {
    /// The read call is complete with this byte-stream result.
    Done(Result<Vec<u8>, StreamError>),
    /// A Ping arrived: attempt a non-blocking enqueue of a Pong with this
    /// payload on the shared outbound channel, then report the outcome to
    /// `on_pong_enqueue`.
    ReplyPing(Vec<u8>),
}

/// What follows the Pong enqueue attempt: either a finished byte-stream
/// result, or a best-effort flush of the channel.
#[derive(Debug, PartialEq)]
pub enum PongStep {
    /// The read call is complete with this byte-stream result.
    Done(Result<Vec<u8>, StreamError>),
    /// The Pong was accepted: attempt a non-blocking flush of the channel,
    /// then report the outcome to `on_pong_flush`.
    Flush,
}

/// Adapts the inbound message source to a pull-based byte stream, carrying
/// undelivered payload remainders in a debt buffer across read calls.
pub struct WsReadWrapper {
    pub debt: ReadDebt,
}

impl WsReadWrapper {
    /// A fresh read adapter with no debt outstanding.
    pub fn new() -> (w: WsReadWrapper)
        ensures
            w.debt.pending().len() == 0,
    {
        WsReadWrapper { debt: ReadDebt::new() }
    }

    /// Entry of one read call against a caller buffer of `buf_len` bytes.
    /// Outstanding debt is drained first and answers the call by itself; the
    /// caller is directed to poll the source exactly when no debt remains
    /// from an earlier message.
    pub fn read(&mut self, buf_len: usize) -> (r: ReadStart)
        ensures
            r is PollSource <==> old(self).debt.pending().len() == 0,
            r is PollSource ==> final(self).debt.pending() == old(self).debt.pending(),
            r matches ReadStart::Data(chunk) ==> {
                &&& chunk@ == chunk_of(old(self).debt.pending(), buf_len as nat)
                &&& final(self).debt.pending() == rest_of(old(self).debt.pending(), buf_len as nat)
                &&& chunk@ + final(self).debt.pending() == old(self).debt.pending()
            },
    {
        match self.debt.check_debt(buf_len) {
            Some(chunk) => ReadStart::Data(chunk),
            None => ReadStart::PollSource,
        }
    }

    /// Decides the read call from what one non-blocking poll of the source
    /// produced. Close or an exhausted source is terminal; Ping asks the
    /// caller for a Pong reply; Pong is noted and yields zero bytes; Text and
    /// Binary payload is delivered through the debt buffer; a source failure
    /// is propagated unchanged.
    pub fn on_source_event(&mut self, buf_len: usize, event: PollEvent) -> (r: SourceReply)
        requires
            old(self).debt.pending().len() == 0,
        ensures
            event matches PollEvent::Msg(Message::Close(_)) ==> r
                == SourceReply::Done(Err(StreamError::BrokenPipe)),
            event is End ==> r == SourceReply::Done(Err(StreamError::BrokenPipe)),
            event matches PollEvent::Msg(Message::Ping(p)) ==> (r matches
                SourceReply::ReplyPing(q) && q@ == p@),
            event matches PollEvent::Msg(Message::Pong(_)) ==> (r matches
                SourceReply::Done(res) && res matches Ok(v) && v@.len() == 0),
            event matches PollEvent::Msg(Message::Text(p)) ==> (r matches SourceReply::Done(res)
                && res matches Ok(chunk) && chunk@ == chunk_of(p@, buf_len as nat)
                && final(self).debt.pending() == rest_of(p@, buf_len as nat)
                && chunk@ + final(self).debt.pending() == p@),
            event matches PollEvent::Msg(Message::Binary(p)) ==> (r matches SourceReply::Done(res)
                && res matches Ok(chunk) && chunk@ == chunk_of(p@, buf_len as nat)
                && final(self).debt.pending() == rest_of(p@, buf_len as nat)
                && chunk@ + final(self).debt.pending() == p@),
            event is NotReady ==> r == SourceReply::Done(Err(StreamError::WouldBlock)),
            event is Failed ==> r == SourceReply::Done(Err(StreamError::Other)),
            !(event matches PollEvent::Msg(Message::Text(_)) || event matches PollEvent::Msg(
                Message::Binary(_),
            )) ==> final(self).debt.pending() == old(self).debt.pending(),
    {
        match event {
            PollEvent::Msg(Message::Close(_)) => SourceReply::Done(Err(StreamError::BrokenPipe)),
            PollEvent::End => SourceReply::Done(Err(StreamError::BrokenPipe)),
            PollEvent::Msg(Message::Ping(p)) => SourceReply::ReplyPing(p),
            PollEvent::Msg(Message::Pong(_)) => SourceReply::Done(Ok(Vec::new())),
            PollEvent::Msg(Message::Text(p)) => {
                let ghost payload = p@;
                let chunk = self.debt.process_message(buf_len, p);
                proof {
                    assert(self.debt.pending() =~= rest_of(payload, buf_len as nat));
                }
                SourceReply::Done(Ok(chunk))
            },
            PollEvent::Msg(Message::Binary(p)) => {
                let ghost payload = p@;
                let chunk = self.debt.process_message(buf_len, p);
                proof {
                    assert(self.debt.pending() =~= rest_of(payload, buf_len as nat));
                }
                SourceReply::Done(Ok(chunk))
            },
            PollEvent::NotReady => SourceReply::Done(Err(StreamError::WouldBlock)),
            PollEvent::Failed => SourceReply::Done(Err(StreamError::Other)),
        }
    }

    /// Decides what follows the Pong enqueue attempt. A saturated channel
    /// drops the reply silently — never an error and never a block for the
    /// read call; an accepted reply is followed by a best-effort flush; only
    /// a channel failure surfaces, propagated unchanged.
    pub fn on_pong_enqueue(enq: EnqueueResult) -> (r: PongStep)
        ensures
            enq is Accepted ==> r is Flush,
            enq matches EnqueueResult::NotReady(_) ==> (r matches PongStep::Done(res)
                && res matches Ok(v) && v@.len() == 0),
            enq is Failed ==> r == PongStep::Done(Err(StreamError::Other)),
            !(r matches PongStep::Done(Err(StreamError::WouldBlock))),
            !(r matches PongStep::Done(Err(StreamError::BrokenPipe))),
    {
        match enq {
            EnqueueResult::Accepted => PongStep::Flush,
            EnqueueResult::NotReady(_) => PongStep::Done(Ok(Vec::new())),
            EnqueueResult::Failed => PongStep::Done(Err(StreamError::Other)),
        }
    }

    /// Decides the read call from the flush that followed an accepted Pong.
    /// The flush is best-effort: not-complete is fine and the read call still
    /// yields zero bytes; only a channel failure surfaces.
    pub fn on_pong_flush(fl: FlushResult) -> (r: Result<Vec<u8>, StreamError>)
        ensures
            fl is Failed ==> r == Err::<Vec<u8>, StreamError>(StreamError::Other),
            !(fl is Failed) ==> (r matches Ok(v) && v@.len() == 0),
            !(r matches Err(StreamError::WouldBlock)),
            !(r matches Err(StreamError::BrokenPipe)),
    {
        match fl {
            FlushResult::Complete | FlushResult::NotReady => Ok(Vec::new()),
            FlushResult::Failed => Err(StreamError::Other),
        }
    }
}

} // verus!
