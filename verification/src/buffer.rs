//! The pending-output queue: a FIFO byte buffer that absorbs size mismatches
//! between inbound message size and the consumer's read-buffer size.
//!
//! Bytes are appended in arrival order and drained in the same order; no byte
//! is delivered twice and no byte is dropped once enqueued.

use vstd::pervasive::VecAdditionalExecFns;
use vstd::prelude::*;

verus! {

/// Inbound messages are newline-terminated before queueing: the consumer
/// protocol is line-oriented.
pub const NEWLINE: u8 = 10;

/// One inbound message framed as a line: its UTF-8 bytes followed by a newline.
pub open spec fn line_bytes(text: Seq<char>) -> Seq<u8> {
    vstd::utf8::encode_utf8(text) + seq![NEWLINE]
}

/// A FIFO queue of bytes awaiting delivery to the consumer.
pub struct PendingBuffer {
    bytes: Vec<u8>,
}

impl View for PendingBuffer {
    type V = Seq<u8>;

    closed spec fn view(&self) -> Seq<u8> {
        self.bytes@
    }
}

impl PendingBuffer {
    pub fn new() -> (r: Self)
        ensures
            r@ == Seq::<u8>::empty(),
    {
        PendingBuffer { bytes: Vec::new() }
    }

    pub fn len(&self) -> (n: usize)
        ensures
            n == self@.len(),
    {
        self.bytes.len()
    }

    pub fn is_empty(&self) -> (b: bool)
        ensures
            b == (self@.len() == 0),
    {
        self.bytes.len() == 0
    }

    /// Append one byte at the back.
    pub fn push_byte(&mut self, b: u8)
        ensures
            final(self)@ == old(self)@.push(b),
    {
        self.bytes.push(b);
    }

    /// Append one message at the back, newline-terminated.
    pub fn enqueue_line(&mut self, text: &str)
        ensures
            final(self)@ == old(self)@ + line_bytes(text@),
    {
        let bs: &[u8] = text.as_bytes();
        self.bytes.extend_from_slice(bs);
        self.bytes.push(NEWLINE);
        assert(self.bytes@ =~= old(self)@ + line_bytes(text@));
    }

    /// Move the front `min(queue length, buf length)` bytes of the queue into
    /// the front of `buf`, keeping the rest queued in order. Returns the count
    /// moved. The tail of `buf` past that count is left untouched.
    pub fn drain_into(&mut self, buf: &mut Vec<u8>) -> (n: usize)
        ensures
            n == vstd::math::min(old(self)@.len() as int, old(buf)@.len() as int),
            final(buf)@.len() == old(buf)@.len(),
            final(buf)@.subrange(0, n as int) == old(self)@.subrange(0, n as int),
            final(buf)@.subrange(n as int, final(buf)@.len() as int) == old(buf)@.subrange(
                n as int,
                old(buf)@.len() as int,
            ),
            final(self)@ == old(self)@.subrange(n as int, old(self)@.len() as int),
            old(self)@ == final(buf)@.subrange(0, n as int) + final(self)@,
    {
        let n = if self.bytes.len() < buf.len() {
            self.bytes.len()
        } else {
            buf.len()
        };
        let mut i: usize = 0;
        while i < n
            invariant
                i <= n,
                n <= self.bytes@.len(),
                n <= buf@.len(),
                self@ == old(self)@,
                buf@.len() == old(buf)@.len(),
                forall|j: int| 0 <= j < i ==> buf@[j] == old(self)@[j],
                forall|j: int| i <= j < buf@.len() ==> buf@[j] == old(buf)@[j],
            decreases n - i,
        {
            let b = self.bytes[i];
            buf.set(i, b);
            i = i + 1;
        }
        let rest = self.bytes.split_off(n);
        self.bytes = rest;
        proof {
            assert(buf@.subrange(0, n as int) =~= old(self)@.subrange(0, n as int));
            assert(buf@.subrange(n as int, buf@.len() as int) =~= old(buf)@.subrange(
                n as int,
                old(buf)@.len() as int,
            ));
            assert(old(self)@ =~= buf@.subrange(0, n as int) + self@);
        }
        n
    }
}

/// The bytes one `drain_into` call delivers from a queue holding `p` into a
/// buffer of length `cap`.
pub open spec fn drained(p: Seq<u8>, cap: nat) -> Seq<u8> {
    p.take(vstd::math::min(p.len() as int, cap as int))
}

/// What stays queued after that call.
pub open spec fn rest(p: Seq<u8>, cap: nat) -> Seq<u8> {
    p.skip(vstd::math::min(p.len() as int, cap as int))
}

/// The concatenation of everything delivered by successive `drain_into` calls
/// with buffer lengths `caps`, starting from a queue holding `p`.
pub open spec fn delivered(p: Seq<u8>, caps: Seq<nat>) -> Seq<u8>
    decreases caps.len(),
{
    if caps.len() == 0 {
        Seq::<u8>::empty()
    } else {
        drained(p, caps[0]) + delivered(rest(p, caps[0]), caps.drop_first())
    }
}

/// What stays queued after all of those calls.
pub open spec fn left_over(p: Seq<u8>, caps: Seq<nat>) -> Seq<u8>
    decreases caps.len(),
{
    if caps.len() == 0 {
        p
    } else {
        left_over(rest(p, caps[0]), caps.drop_first())
    }
}

/// FIFO conservation: however the consumer sizes its read buffers, the bytes
/// delivered across successive drains, in order, followed by what is still
/// queued, are exactly the queued bytes — none lost, duplicated or reordered.
pub proof fn lemma_drain_fifo(p: Seq<u8>, caps: Seq<nat>)
    ensures
        delivered(p, caps) + left_over(p, caps) == p,
    decreases caps.len(),
{
    if caps.len() == 0 {
        assert(delivered(p, caps) + left_over(p, caps) =~= p);
    } else {
        let k = vstd::math::min(p.len() as int, caps[0] as int);
        lemma_drain_fifo(rest(p, caps[0]), caps.drop_first());
        assert(delivered(p, caps) + left_over(p, caps) =~= p.take(k) + (delivered(
            rest(p, caps[0]),
            caps.drop_first(),
        ) + left_over(rest(p, caps[0]), caps.drop_first())));
        assert(p.take(k) + p.skip(k) =~= p);
    }
}

/// If conversation message `m1` and after it `m2` are queued before any read, the
/// bytes any sequence of reads returns are a prefix of `m1`, a newline, `m2`
/// and a newline, split only at the boundaries the read-buffer sizes choose.
pub proof fn lemma_two_messages_in_order(m1: Seq<char>, m2: Seq<char>, caps: Seq<nat>)
    ensures
        delivered(line_bytes(m1) + line_bytes(m2), caps) + left_over(
            line_bytes(m1) + line_bytes(m2),
            caps,
        ) == line_bytes(m1) + line_bytes(m2),
{
    lemma_drain_fifo(line_bytes(m1) + line_bytes(m2), caps);
}

} // verus!
