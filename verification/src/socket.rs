//! The verifiable parts of the two socket backends.
//!
//! The raw-socket backend's per-call decisions live here: network byte-order
//! conversion for building socket addresses, the mapping from a readiness
//! check plus an OS call result to the uniform `Ok(0)`-means-try-later
//! convention, and the reverse-DNS fallback rule. The managed-socket backend's
//! arrival queue — a bounded FIFO with the "queue empty" flag its condition
//! variable sleeps on — is [`ConnQueue`]. The OS calls themselves (socket,
//! bind, select, accept, read, send) stay with the caller that owns the file
//! descriptors; everything it must decide about their results is verified
//! here.

use crate::descriptor::IoError;
use vstd::prelude::*;

verus! {

/// Host-to-network conversion of a 16-bit value: the two bytes swap places.
pub fn htons(u: u16) -> (r: u16)
    ensures
        r == (u % 256) * 256 + u / 256,
{
    let r = (u << 8) | (u >> 8);
    proof {
        assert(((u << 8) | (u >> 8)) == ((u % 256) * 256 + u / 256)) by (bit_vector);
    }
    r
}

/// Host-to-network conversion of a 32-bit value: the four bytes reverse.
pub fn htonl(u: u32) -> (r: u32)
    ensures
        r == (u % 256) * 16777216 + ((u / 256) % 256) * 65536 + ((u / 65536) % 256) * 256 + u
            / 16777216,
{
    let r = (u << 24) | ((u & 0xff00) << 8) | ((u >> 8) & 0xff00) | (u >> 24);
    proof {
        assert(((u << 24) | ((u & 0xff00) << 8) | ((u >> 8) & 0xff00) | (u >> 24)) == ((u % 256)
            * 16777216 + ((u / 256) % 256) * 65536 + ((u / 65536) % 256) * 256 + u / 16777216))
            by (bit_vector);
    }
    r
}

/// Network-to-host conversion of a 32-bit value: the same byte reversal.
pub fn ntohl(u: u32) -> (r: u32)
    ensures
        r == (u % 256) * 16777216 + ((u / 256) % 256) * 65536 + ((u / 65536) % 256) * 256 + u
            / 16777216,
{
    htonl(u)
}

/// Reverse-DNS fallback: the resolved name when the lookup succeeded, else
/// the literal address text. Resolution failure is absorbed, never surfaced;
/// at this level a hostname is always produced.
pub fn hostname_or_literal(lookup: Result<String, IoError>, literal: String) -> (r: String)
    ensures
        match lookup {
            Ok(name) => r@ == name@,
            Err(_) => r@ == literal@,
        },
{
    match lookup {
        Ok(name) => name,
        Err(_) => literal,
    }
}

/// The raw-socket per-call rule: when the zero-timeout readiness check says
/// the descriptor is not ready, the operation is `Ok(0)` and no OS call is
/// issued; otherwise a negative OS result is a hard error and a non-negative
/// one is the byte count.
pub fn os_io_outcome(ready: bool, retval: i64) -> (r: Result<usize, IoError>)
    requires
        retval <= usize::MAX,
    ensures
        !ready ==> r == Ok::<usize, IoError>(0),
        ready && retval < 0 ==> r == Err::<usize, IoError>(IoError::Other),
        ready && retval >= 0 ==> r == Ok::<usize, IoError>(retval as usize),
{
    if !ready {
        Ok(0)
    } else if retval < 0 {
        Err(IoError::Other)
    } else {
        Ok(retval as usize)
    }
}

/// The managed-socket arrival queue: accepted connections, identified by
/// token, queued in arrival order and bounded to keep the unacknowledged
/// backlog small. `queue_empty` is the predicate the consumer's condition
/// variable sleeps on; it is recomputed by every operation so a sleeping
/// consumer can never miss a queued arrival.
pub struct ConnQueue {
    items: Vec<u64>,
    capacity: usize,
    queue_empty: bool,
}

impl View for ConnQueue {
    type V = Seq<u64>;

    closed spec fn view(&self) -> Seq<u64> {
        self.items@
    }
}

impl ConnQueue {
    pub closed spec fn capacity_spec(&self) -> nat {
        self.capacity as nat
    }

    /// The flag is never stale: it says "empty" exactly when the queue is.
    pub closed spec fn wf(&self) -> bool {
        self@.len() <= self.capacity_spec() && self.queue_empty == (self@.len() == 0)
    }

    pub fn new(capacity: usize) -> (r: Self)
        ensures
            r.wf(),
            r@ == Seq::<u64>::empty(),
            r.capacity_spec() == capacity,
    {
        ConnQueue { items: Vec::new(), capacity, queue_empty: true }
    }

    /// Enqueue one accepted connection at the back; refused only when the
    /// backlog bound is reached.
    pub fn push(&mut self, token: u64) -> (accepted: bool)
        requires
            old(self).wf(),
        ensures
            final(self).wf(),
            final(self).capacity_spec() == old(self).capacity_spec(),
            accepted == (old(self)@.len() < old(self).capacity_spec()),
            accepted ==> final(self)@ == old(self)@.push(token),
            !accepted ==> final(self)@ == old(self)@,
    {
        if self.items.len() < self.capacity {
            self.items.push(token);
            self.queue_empty = self.items.len() == 0;
            true
        } else {
            false
        }
    }

    /// Dequeue the connection that arrived first, if any: delivery to the
    /// consumer is in arrival order, and a dequeued connection leaves the
    /// queue, so it can never be handed out twice.
    pub fn pop(&mut self) -> (r: Option<u64>)
        requires
            old(self).wf(),
        ensures
            final(self).wf(),
            final(self).capacity_spec() == old(self).capacity_spec(),
            match r {
                Some(token) => old(self)@.len() > 0 && token == old(self)@[0] && final(self)@
                    == old(self)@.drop_first(),
                None => old(self)@.len() == 0 && final(self)@ == old(self)@,
            },
    {
        if self.items.len() == 0 {
            None
        } else {
            let token = self.items.remove(0);
            self.queue_empty = self.items.len() == 0;
            Some(token)
        }
    }

    /// The predicate the blocking wait sleeps on. Under well-formedness it is
    /// exactly "nothing is queued", so a wait that checks it before sleeping
    /// never sleeps past a real arrival.
    pub fn flagged_empty(&self) -> (b: bool)
        requires
            self.wf(),
        ensures
            b == (self@.len() == 0),
    {
        self.queue_empty
    }

    pub fn len(&self) -> (n: usize)
        ensures
            n == self@.len(),
    {
        self.items.len()
    }
}

/// New-connection delivery is at-most-once: when the queued tokens are
/// distinct, two successive `pop` calls never hand out the same connection.
pub proof fn lemma_pop_at_most_once(q: Seq<u64>)
    requires
        q.no_duplicates(),
        q.len() >= 2,
    ensures
        q[0] != q.drop_first()[0],
{
    assert(q.drop_first()[0] == q[1]);
}

} // verus!
