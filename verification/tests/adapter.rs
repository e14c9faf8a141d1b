use ws_peer::debt::ReadDebt;
use ws_peer::msg::EnqueueResult;
use ws_peer::msg::FlushResult;
use ws_peer::msg::Message;
use ws_peer::msg::PollEvent;
use ws_peer::msg::StreamError;
use ws_peer::peer::Peer;
use ws_peer::peer::PeerForWs;
use ws_peer::read::PongStep;
use ws_peer::read::ReadStart;
use ws_peer::read::SourceReply;
use ws_peer::read::WsReadWrapper;
use ws_peer::write::WsWriteWrapper;

fn expect_done(r: SourceReply) -> Result<Vec<u8>, StreamError> {
    match r {
        SourceReply::Done(res) => res,
        SourceReply::ReplyPing(_) => panic!("expected a finished read"),
    }
}

#[test]
fn fresh_adapter_polls_the_source() {
    let mut r = WsReadWrapper::new();
    assert!(matches!(r.read(16), ReadStart::PollSource));
}

#[test]
fn binary_payload_drained_across_reads() {
    // Buffer size 4, inbound Binary payload "ABCDEFGH": the first read
    // delivers "ABCD" and leaves 4 bytes in debt, a second read with a
    // larger buffer delivers "EFGH" without touching the source, and the
    // third read polls the source again.
    let mut r = WsReadWrapper::new();
    assert!(matches!(r.read(4), ReadStart::PollSource));
    let reply = r.on_source_event(4, PollEvent::Msg(Message::Binary(b"ABCDEFGH".to_vec())));
    assert_eq!(expect_done(reply), Ok(b"ABCD".to_vec()));
    match r.read(10) {
        ReadStart::Data(chunk) => assert_eq!(chunk, b"EFGH".to_vec()),
        ReadStart::PollSource => panic!("debt must answer the second read"),
    }
    assert!(matches!(r.read(4), ReadStart::PollSource));
}

#[test]
fn text_payload_is_delivered_like_binary() {
    let mut r = WsReadWrapper::new();
    let reply = r.on_source_event(16, PollEvent::Msg(Message::Text(b"hello".to_vec())));
    assert_eq!(expect_done(reply), Ok(b"hello".to_vec()));
    assert!(matches!(r.read(16), ReadStart::PollSource));
}

#[test]
fn empty_payload_yields_zero_bytes_and_no_debt() {
    let mut r = WsReadWrapper::new();
    let reply = r.on_source_event(8, PollEvent::Msg(Message::Binary(Vec::new())));
    assert_eq!(expect_done(reply), Ok(Vec::new()));
    assert!(matches!(r.read(8), ReadStart::PollSource));
}

#[test]
fn zero_length_buffer_keeps_the_whole_payload_as_debt() {
    let mut r = WsReadWrapper::new();
    let reply = r.on_source_event(0, PollEvent::Msg(Message::Binary(b"xy".to_vec())));
    assert_eq!(expect_done(reply), Ok(Vec::new()));
    match r.read(2) {
        ReadStart::Data(chunk) => assert_eq!(chunk, b"xy".to_vec()),
        ReadStart::PollSource => panic!("the payload must be owed as debt"),
    }
}

#[test]
fn repeated_reads_reassemble_the_payload_exactly() {
    // Drain one 100-byte message through buffers of varying sizes and check
    // that the concatenation of every chunk is the original payload.
    let mut payload: Vec<u8> = Vec::new();
    for i in 0..100u8 {
        payload.push(i.wrapping_mul(37).wrapping_add(11));
    }
    let sizes = [7usize, 1, 13, 4, 0, 25, 9, 60, 5];
    let mut r = WsReadWrapper::new();
    let reply = r.on_source_event(sizes[0], PollEvent::Msg(Message::Binary(payload.clone())));
    let mut gathered = match reply {
        SourceReply::Done(Ok(chunk)) => chunk,
        _ => panic!("a data frame must deliver bytes"),
    };
    for &size in &sizes[1..] {
        match r.read(size) {
            ReadStart::Data(mut chunk) => gathered.append(&mut chunk),
            ReadStart::PollSource => break,
        }
    }
    assert_eq!(gathered, payload);
    assert!(matches!(r.read(3), ReadStart::PollSource));
}

#[test]
fn close_frame_breaks_the_pipe() {
    let mut r = WsReadWrapper::new();
    let reply = r.on_source_event(64, PollEvent::Msg(Message::Close(None)));
    assert_eq!(expect_done(reply), Err(StreamError::BrokenPipe));
}

#[test]
fn close_is_terminal_whatever_the_buffer_size() {
    // After an inbound Close the read fails with BrokenPipe, and every later
    // read — the source stays ended — fails the same way.
    let mut r = WsReadWrapper::new();
    let reply = r.on_source_event(1, PollEvent::Msg(Message::Close(Some(b"bye".to_vec()))));
    assert_eq!(expect_done(reply), Err(StreamError::BrokenPipe));
    assert!(matches!(r.read(1024), ReadStart::PollSource));
    let reply = r.on_source_event(1024, PollEvent::End);
    assert_eq!(expect_done(reply), Err(StreamError::BrokenPipe));
    assert!(matches!(r.read(0), ReadStart::PollSource));
    let reply = r.on_source_event(0, PollEvent::End);
    assert_eq!(expect_done(reply), Err(StreamError::BrokenPipe));
}

#[test]
fn exhausted_source_breaks_the_pipe() {
    let mut r = WsReadWrapper::new();
    let reply = r.on_source_event(8, PollEvent::End);
    assert_eq!(expect_done(reply), Err(StreamError::BrokenPipe));
}

#[test]
fn source_not_ready_would_block() {
    let mut r = WsReadWrapper::new();
    let reply = r.on_source_event(8, PollEvent::NotReady);
    assert_eq!(expect_done(reply), Err(StreamError::WouldBlock));
}

#[test]
fn source_failure_is_propagated() {
    let mut r = WsReadWrapper::new();
    let reply = r.on_source_event(8, PollEvent::Failed);
    assert_eq!(expect_done(reply), Err(StreamError::Other));
}

#[test]
fn ping_asks_for_a_pong_with_the_same_payload() {
    let mut r = WsReadWrapper::new();
    let reply = r.on_source_event(8, PollEvent::Msg(Message::Ping(b"ka".to_vec())));
    match reply {
        SourceReply::ReplyPing(p) => assert_eq!(p, b"ka".to_vec()),
        SourceReply::Done(_) => panic!("a Ping must ask for a reply"),
    }
}

#[test]
fn ping_under_channel_contention_is_dropped_silently() {
    // A saturated outbound channel: the reply is dropped, the read call sees
    // neither an error nor a block, just zero bytes.
    let mut r = WsReadWrapper::new();
    let reply = r.on_source_event(4, PollEvent::Msg(Message::Ping(b"hi".to_vec())));
    let p = match reply {
        SourceReply::ReplyPing(p) => p,
        SourceReply::Done(_) => panic!("a Ping must ask for a reply"),
    };
    let enq = EnqueueResult::NotReady(Message::Pong(p));
    match WsReadWrapper::on_pong_enqueue(enq) {
        PongStep::Done(res) => assert_eq!(res, Ok(Vec::new())),
        PongStep::Flush => panic!("a dropped reply must not be flushed"),
    }
}

#[test]
fn accepted_pong_is_flushed_best_effort() {
    assert!(matches!(WsReadWrapper::on_pong_enqueue(EnqueueResult::Accepted), PongStep::Flush));
    assert_eq!(WsReadWrapper::on_pong_flush(FlushResult::Complete), Ok(Vec::new()));
    assert_eq!(WsReadWrapper::on_pong_flush(FlushResult::NotReady), Ok(Vec::new()));
    assert_eq!(WsReadWrapper::on_pong_flush(FlushResult::Failed), Err(StreamError::Other));
}

#[test]
fn failed_pong_enqueue_surfaces_the_channel_failure() {
    match WsReadWrapper::on_pong_enqueue(EnqueueResult::Failed) {
        PongStep::Done(res) => assert_eq!(res, Err(StreamError::Other)),
        PongStep::Flush => panic!("a failed enqueue must not be flushed"),
    }
}

#[test]
fn pong_frame_from_the_peer_yields_zero_bytes() {
    let mut r = WsReadWrapper::new();
    let reply = r.on_source_event(8, PollEvent::Msg(Message::Pong(b"late".to_vec())));
    assert_eq!(expect_done(reply), Ok(Vec::new()));
}

#[test]
fn write_frames_the_whole_buffer_as_one_binary_message() {
    let w = WsWriteWrapper::new();
    let buf = b"hello".to_vec();
    assert_eq!(w.write_frame(&buf), Message::Binary(b"hello".to_vec()));
}

#[test]
fn accepted_write_reports_the_full_buffer_length() {
    let w = WsWriteWrapper::new();
    let buf = b"hello".to_vec();
    assert_eq!(w.write(&buf, EnqueueResult::Accepted), Ok(5));
}

#[test]
fn not_ready_write_would_block_and_is_retryable() {
    let w = WsWriteWrapper::new();
    let buf = b"hello".to_vec();
    let handed_back = EnqueueResult::NotReady(Message::Binary(buf.clone()));
    assert_eq!(w.write(&buf, handed_back), Err(StreamError::WouldBlock));
    // The identical buffer, retried once the channel is ready, goes through.
    assert_eq!(w.write(&buf, EnqueueResult::Accepted), Ok(5));
}

#[test]
fn failed_write_surfaces_the_channel_failure() {
    let w = WsWriteWrapper::new();
    let buf = b"x".to_vec();
    assert_eq!(w.write(&buf, EnqueueResult::Failed), Err(StreamError::Other));
}

#[test]
fn flush_follows_the_channel_answer() {
    let w = WsWriteWrapper::new();
    assert_eq!(w.flush(FlushResult::Complete), Ok(()));
    assert_eq!(w.flush(FlushResult::NotReady), Err(StreamError::WouldBlock));
    assert_eq!(w.flush(FlushResult::Failed), Err(StreamError::Other));
}

#[test]
fn shutdown_reports_immediate_success() {
    let w = WsWriteWrapper::new();
    assert_eq!(w.shutdown(), Ok(()));
}

#[test]
fn destruction_enqueues_one_close_frame_without_reason() {
    let w = WsWriteWrapper::new();
    assert_eq!(w.close_frame(), Message::Close(None));
}

#[test]
fn peer_for_ws_forwards_the_read_path() {
    let mut p = PeerForWs(Peer { reader: WsReadWrapper::new(), writer: WsWriteWrapper::new() });
    assert!(matches!(p.read(4), ReadStart::PollSource));
    let reply = p.on_source_event(4, PollEvent::Msg(Message::Binary(b"ABCDEFGH".to_vec())));
    assert_eq!(expect_done(reply), Ok(b"ABCD".to_vec()));
    match p.read(10) {
        ReadStart::Data(chunk) => assert_eq!(chunk, b"EFGH".to_vec()),
        ReadStart::PollSource => panic!("debt must answer the second read"),
    }
}

#[test]
fn peer_for_ws_forwards_the_write_path() {
    let p = PeerForWs(Peer { reader: WsReadWrapper::new(), writer: WsWriteWrapper::new() });
    let buf = b"data".to_vec();
    assert_eq!(p.write_frame(&buf), Message::Binary(b"data".to_vec()));
    assert_eq!(p.write(&buf, EnqueueResult::Accepted), Ok(4));
    assert_eq!(p.write(&buf, EnqueueResult::NotReady(Message::Binary(buf.clone()))), Err(StreamError::WouldBlock));
    assert_eq!(p.flush(FlushResult::Complete), Ok(()));
    assert_eq!(p.flush(FlushResult::NotReady), Err(StreamError::WouldBlock));
    assert_eq!(p.shutdown(), Ok(()));
}

#[test]
fn debt_buffer_drains_in_order_and_clears() {
    let mut d = ReadDebt::new();
    assert!(d.check_debt(4).is_none());
    let chunk = d.process_message(2, b"abcdef".to_vec());
    assert_eq!(chunk, b"ab".to_vec());
    assert_eq!(d.check_debt(3), Some(b"cde".to_vec()));
    assert_eq!(d.check_debt(3), Some(b"f".to_vec()));
    assert!(d.check_debt(3).is_none());
}

#[test]
fn debt_buffer_fitting_payload_leaves_no_debt() {
    let mut d = ReadDebt::new();
    let chunk = d.process_message(8, b"abc".to_vec());
    assert_eq!(chunk, b"abc".to_vec());
    assert!(d.check_debt(8).is_none());
}

#[test]
fn debt_buffer_zero_length_buffer_copies_nothing() {
    let mut d = ReadDebt::new();
    let chunk = d.process_message(0, b"abc".to_vec());
    assert_eq!(chunk, Vec::new());
    assert_eq!(d.check_debt(0), Some(Vec::new()));
    assert_eq!(d.check_debt(10), Some(b"abc".to_vec()));
}
