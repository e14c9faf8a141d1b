//! The debt buffer: the carried-over, not-yet-delivered remainder of a message
//! payload that did not fit in a prior caller buffer.
//!
//! At most one remainder is held at a time; it is drained into caller buffers
//! across as many read calls as it takes, and the inbound source must not be
//! polled again while any of it is outstanding.

use vstd::prelude::*;

verus! {

/// How many bytes a delivery hands over: the payload and the caller's buffer
/// capacity bound it both.
pub open spec fn take_len(payload_len: nat, buf_len: nat) -> nat {
    if buf_len < payload_len {
        buf_len
    } else {
        payload_len
    }
}

/// The bytes one delivery copies out of a pending payload: its first
/// `take_len` bytes.
pub open spec fn chunk_of(payload: Seq<u8>, buf_len: nat) -> Seq<u8> {
    payload.take(take_len(payload.len(), buf_len) as int)
}

/// The bytes one delivery leaves behind: everything after the chunk.
pub open spec fn rest_of(payload: Seq<u8>, buf_len: nat) -> Seq<u8> {
    payload.skip(take_len(payload.len(), buf_len) as int)
}

/// One delivery neither duplicates nor loses a byte: the chunk handed out and
/// the remainder left behind are exactly the original payload.
pub proof fn lemma_delivery_conserves(payload: Seq<u8>, buf_len: nat)
    ensures
        chunk_of(payload, buf_len) + rest_of(payload, buf_len) == payload,
{
    assert(chunk_of(payload, buf_len) + rest_of(payload, buf_len) =~= payload);
}

/// The bytes a run of reads against one pending payload delivers, the caller
/// buffers sized as `sizes` says, concatenated in the order they were handed
/// out.
pub open spec fn drained(payload: Seq<u8>, sizes: Seq<nat>) -> Seq<u8>
    decreases sizes.len(),
{
    if sizes.len() == 0 {
        Seq::empty()
    } else {
        chunk_of(payload, sizes[0]) + drained(rest_of(payload, sizes[0]), sizes.drop_first())
    }
}

/// How many bytes a run of caller buffers can take in all.
pub open spec fn total_capacity(sizes: Seq<nat>) -> nat
    decreases sizes.len(),
{
    if sizes.len() == 0 {
        0
    } else {
        sizes[0] + total_capacity(sizes.drop_first())
    }
}

/// Repeated reads fully drain one message with no duplication or loss: for any
/// payload and any run of buffer sizes that offers at least as many bytes as
/// the payload holds, the chunks handed out, concatenated, are exactly the
/// original payload.
pub proof fn lemma_repeated_reads_drain(payload: Seq<u8>, sizes: Seq<nat>)
    requires
        total_capacity(sizes) >= payload.len(),
    ensures
        drained(payload, sizes) == payload,
    decreases sizes.len(),
{
    if sizes.len() == 0 {
        assert(drained(payload, sizes) =~= payload);
    } else {
        let rest = rest_of(payload, sizes[0]);
        assert(rest.len() == payload.len() - take_len(payload.len(), sizes[0]));
        lemma_repeated_reads_drain(rest, sizes.drop_first());
        lemma_delivery_conserves(payload, sizes[0]);
    }
}

/// Holds the remainder of one message that did not fit in the caller's buffer.
/// An empty remainder means no debt is outstanding.
pub struct ReadDebt {
    remainder: Vec<u8>,
}

impl ReadDebt {
    /// The bytes still owed to the caller; empty when no debt is outstanding.
    pub closed spec fn pending(self) -> Seq<u8> {
        self.remainder@
    }

    /// A fresh debt buffer with nothing outstanding.
    pub fn new() -> (d: ReadDebt)
        ensures
            d.pending() =~= Seq::<u8>::empty(),
    {
        ReadDebt { remainder: Vec::new() }
    }

    /// Delivers as much of `payload` as a buffer of `buf_len` bytes can take
    /// and keeps the rest, if any, as the new outstanding debt; a payload that
    /// fits entirely leaves the debt as it was.
    pub fn process_message(&mut self, buf_len: usize, payload: Vec<u8>) -> (chunk: Vec<u8>)
        ensures
            chunk@ == chunk_of(payload@, buf_len as nat),
            final(self).pending() == if rest_of(payload@, buf_len as nat).len() > 0 {
                rest_of(payload@, buf_len as nat)
            } else {
                old(self).pending()
            },
            chunk@ + rest_of(payload@, buf_len as nat) == payload@,
    {
        proof {
            lemma_delivery_conserves(payload@, buf_len as nat);
        }
        if buf_len < payload.len() {
            let mut p = payload;
            let rest = p.split_off(buf_len);
            self.remainder = rest;
            p
        } else {
            proof {
                assert(chunk_of(payload@, buf_len as nat) =~= payload@);
            }
            payload
        }
    }

    /// If debt is outstanding, drains up to `buf_len` bytes of it and answers
    /// with the chunk — the caller must not consult the source this call. If
    /// none is, answers nothing and leaves the buffer untouched: the caller
    /// proceeds to poll the source.
    pub fn check_debt(&mut self, buf_len: usize) -> (r: Option<Vec<u8>>)
        ensures
            r is None <==> old(self).pending().len() == 0,
            r is None ==> final(self).pending() == old(self).pending(),
            r matches Some(chunk) ==> {
                &&& chunk@ == chunk_of(old(self).pending(), buf_len as nat)
                &&& final(self).pending() == rest_of(old(self).pending(), buf_len as nat)
                &&& chunk@ + final(self).pending() == old(self).pending()
            },
    {
        if self.remainder.len() == 0 {
            return None;
        }
        let mut payload: Vec<u8> = Vec::new();
        core::mem::swap(&mut self.remainder, &mut payload);
        let chunk = self.process_message(buf_len, payload);
        Some(chunk)
    }
}

} // verus!
