//! Per-device reassembly of notification chunks into complete 23-byte
//! telemetry frames. A chunk that begins with the frame header starts a
//! new frame and discards whatever was accumulating; any other chunk is
//! appended. Once the buffer holds at least 23 bytes the first 23 are the
//! completed frame and the buffer is reset.

use vstd::prelude::*;

use crate::codec::FRAME_HEADER;

verus! {

/// Length of one complete telemetry frame.
pub const TELEMETRY_FRAME_LEN: usize = 23;

/// The buffer contents after merging a newly arrived chunk, before any
/// completion check: an empty chunk is ignored, a chunk that begins with
/// the frame header replaces the buffer, and any other chunk is appended.
pub open spec fn merged_buffer(buf: Seq<u8>, chunk: Seq<u8>) -> Seq<u8> {
    if chunk.len() == 0 {
        buf
    } else if chunk[0] == FRAME_HEADER {
        chunk
    } else {
        buf + chunk
    }
}

/// The frame completed by feeding `chunk` into a reassembler whose buffer
/// held `buf`, if the merged buffer reached a full frame: its first
/// 23 bytes. An empty chunk never completes anything.
pub open spec fn completed_frame(buf: Seq<u8>, chunk: Seq<u8>) -> Option<Seq<u8>> {
    let m = merged_buffer(buf, chunk);
    if chunk.len() > 0 && m.len() >= TELEMETRY_FRAME_LEN {
        Some(m.subrange(0, TELEMETRY_FRAME_LEN as int))
    } else {
        None
    }
}

/// The buffer contents after feeding `chunk`: unchanged for an empty
/// chunk, empty once a frame completed (bytes beyond the frame are
/// dropped), otherwise the merged buffer, still accumulating.
pub open spec fn buffer_after(buf: Seq<u8>, chunk: Seq<u8>) -> Seq<u8> {
    if completed_frame(buf, chunk) is Some {
        Seq::<u8>::empty()
    } else {
        merged_buffer(buf, chunk)
    }
}

/// One device's accumulation buffer for notification chunks.
pub struct Reassembler {
    buf: Vec<u8>,
}

impl Reassembler {
    /// The bytes accumulated so far towards the next frame.
    pub closed spec fn view(&self) -> Seq<u8> {
        self.buf@
    }

    /// A fresh reassembler with nothing accumulated.
    pub fn new() -> (r: Self)
        ensures
            r@ == Seq::<u8>::empty(),
    {
        Reassembler { buf: Vec::new() }
    }

    /// How many bytes are accumulated towards the next frame.
    pub fn buffered_len(&self) -> (n: usize)
        ensures
            n == self@.len(),
    {
        self.buf.len()
    }

    /// Feed one notification chunk; if this completes a frame, return its
    /// 23 bytes. The buffer afterwards and the returned frame follow the
    /// merge-then-complete rule of `buffer_after` and `completed_frame`;
    /// in particular a chunk that begins with the frame header discards
    /// any partial accumulation and starts fresh.
    pub fn feed(&mut self, chunk: &[u8]) -> (r: Option<Vec<u8>>)
        ensures
            final(self)@ == buffer_after(old(self)@, chunk@),
            (r is Some) == (completed_frame(old(self)@, chunk@) is Some),
            r matches Some(f) ==> completed_frame(old(self)@, chunk@) == Some(f@),
    {
        if chunk.len() == 0 {
            return None;
        }
        if chunk[0] == FRAME_HEADER {
            self.buf = Vec::new();
        }
        let mut i: usize = 0;
        let ghost merged = merged_buffer(old(self)@, chunk@);
        let ghost base = self.buf@;
        while i < chunk.len()
            invariant
                i <= chunk@.len(),
                self.buf@ == base + chunk@.subrange(0, i as int),
            decreases chunk@.len() - i,
        {
            self.buf.push(chunk[i]);
            assert(chunk@.subrange(0, i as int).push(chunk@[i as int])
                =~= chunk@.subrange(0, i + 1));
            i = i + 1;
        }
        proof {
            assert(chunk@.subrange(0, chunk@.len() as int) =~= chunk@);
            assert(self.buf@ =~= merged);
        }
        if self.buf.len() >= TELEMETRY_FRAME_LEN {
            let mut frame: Vec<u8> = Vec::new();
            let mut j: usize = 0;
            while j < TELEMETRY_FRAME_LEN
                invariant
                    j <= TELEMETRY_FRAME_LEN,
                    self.buf@ == merged,
                    merged.len() >= TELEMETRY_FRAME_LEN,
                    frame@ == merged.subrange(0, j as int),
                decreases TELEMETRY_FRAME_LEN - j,
            {
                frame.push(self.buf[j]);
                assert(merged.subrange(0, j as int).push(merged[j as int])
                    =~= merged.subrange(0, j + 1));
                j = j + 1;
            }
            self.buf = Vec::new();
            Some(frame)
        } else {
            None
        }
    }
}

/// A frame of 23 bytes that begins with the frame header and is split into
/// two chunks at any point always reassembles to exactly that frame, from
/// any prior buffer contents: the first chunk resynchronizes the buffer,
/// the second completes the frame, and the buffer is left empty.
pub proof fn lemma_split_frame_reassembles(prior: Seq<u8>, frame: Seq<u8>, k: int)
    requires
        frame.len() == TELEMETRY_FRAME_LEN,
        frame[0] == FRAME_HEADER,
        0 < k < TELEMETRY_FRAME_LEN,
        frame[k] != FRAME_HEADER,
    ensures
        completed_frame(prior, frame.subrange(0, k)) is None,
        completed_frame(
            buffer_after(prior, frame.subrange(0, k)),
            frame.subrange(k, TELEMETRY_FRAME_LEN as int),
        ) == Some(frame),
        buffer_after(
            buffer_after(prior, frame.subrange(0, k)),
            frame.subrange(k, TELEMETRY_FRAME_LEN as int),
        ) == Seq::<u8>::empty(),
{
    let first = frame.subrange(0, k);
    let second = frame.subrange(k, TELEMETRY_FRAME_LEN as int);
    assert(first[0] == FRAME_HEADER);
    assert(second[0] != FRAME_HEADER);
    assert(buffer_after(prior, first) == first);
    assert(first + second =~= frame);
    assert(merged_buffer(first, second) == frame);
    assert(frame.subrange(0, TELEMETRY_FRAME_LEN as int) =~= frame);
}

/// A chunk that begins with the frame header discards whatever partial
/// bytes had accumulated and starts fresh: the buffer afterwards and any
/// completed frame are exactly what they would have been had the buffer
/// been empty.
pub proof fn lemma_marker_resync(buf: Seq<u8>, chunk: Seq<u8>)
    requires
        chunk.len() > 0,
        chunk[0] == FRAME_HEADER,
    ensures
        buffer_after(buf, chunk) == buffer_after(Seq::<u8>::empty(), chunk),
        completed_frame(buf, chunk) == completed_frame(Seq::<u8>::empty(), chunk),
{
}

/// A reassembler that holds fewer bytes than one frame keeps doing so
/// after any chunk: completion always drains the buffer.
pub proof fn lemma_buffer_stays_short(buf: Seq<u8>, chunk: Seq<u8>)
    requires
        buf.len() < TELEMETRY_FRAME_LEN,
    ensures
        buffer_after(buf, chunk).len() < TELEMETRY_FRAME_LEN,
{
}

} // verus!
