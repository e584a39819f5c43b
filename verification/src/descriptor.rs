//! The capability contracts every transport backend implements: a duplex,
//! non-blocking byte stream with an origin label ([`Descriptor`]) and a source
//! of new connections ([`DescriptorManager`]).
//!
//! The design rule shared by all backends: a transient "would block" or
//! "nothing queued" condition is never surfaced as an error — `read` and
//! `write` report it as `Ok(0)`, `new_descriptor` as
//! [`NewDescriptorError::NoneAvailable`]. Only genuine transport failure
//! becomes an [`IoError`]. A closed peer is reported as the distinct
//! [`IoError::ConnectionClosed`], never folded into `Ok(0)`.

use crate::buffer::PendingBuffer;
use vstd::prelude::*;

verus! {

/// A hard transport failure, scoped to one descriptor or operation.
#[derive(Clone, Copy, Debug, PartialEq, Eq, Structural)]
pub enum IoError {
    /// The transport cannot make progress right now; retry on a later tick.
    /// Backends absorb this into `Ok(0)` before it reaches the consumer; it
    /// exists so the boundary layer can state that mapping.
    WouldBlock,
    /// A system call was interrupted; absorbed like `WouldBlock`.
    Interrupted,
    /// The peer or the managing side has permanently gone away.
    ConnectionClosed,
    /// Any other operating-system or transport failure.
    Other,
}

/// Why `new_descriptor` returned nothing.
#[derive(Clone, Copy, Debug, PartialEq, Eq, Structural)]
pub enum NewDescriptorError {
    /// Nothing is available right now: keep polling. Not an application error.
    NoneAvailable,
    /// The source of new connections failed.
    Io(IoError),
}

/// A stable identity for one open conversation or connection.
#[derive(Debug, Clone, PartialEq, Eq)]
pub struct DescriptorId {
    pub identifier: String,
    pub descriptor_type: String,
}

impl DescriptorId {
    pub fn new(identifier: &str, descriptor_type: &str) -> (r: Self)
        ensures
            r.identifier@ == identifier@,
            r.descriptor_type@ == descriptor_type@,
    {
        DescriptorId { identifier: identifier.to_owned(), descriptor_type: descriptor_type.to_owned() }
    }
}

/// The design rule shared by all backends, applied to one operation's
/// outcome: a would-block or interrupted condition becomes `Ok(0)` — retry
/// on a later tick — and every other outcome passes through unchanged.
pub fn absorb_transient(result: Result<usize, IoError>) -> (r: Result<usize, IoError>)
    ensures
        match result {
            Ok(n) => r == Ok::<usize, IoError>(n),
            Err(e) => r == if e == IoError::WouldBlock || e == IoError::Interrupted {
                Ok::<usize, IoError>(0)
            } else {
                Err::<usize, IoError>(e)
            },
        },
{
    match result {
        Ok(n) => Ok(n),
        Err(IoError::WouldBlock) => Ok(0),
        Err(IoError::Interrupted) => Ok(0),
        Err(e) => Err(e),
    }
}

/// Read delivery is first-in-first-out: the bytes pending before the call are
/// a prefix of what the call hands out followed by what stays pending — no
/// byte lost, duplicated or reordered, whatever bytes arrived meanwhile.
pub open spec fn reads_in_order(pre: Seq<u8>, out: Seq<u8>, post: Seq<u8>) -> bool {
    pre.is_prefix_of(out + post)
}

/// One open conversation or connection, exposed as a duplex byte stream.
///
/// All operations return promptly; none may suspend the calling thread.
pub trait Descriptor {
    /// The bytes received from the peer but not yet handed to the consumer.
    spec fn pending(&self) -> Seq<u8>;

    /// The origin label: a resolved hostname or a synthesized label. Immutable
    /// for the descriptor's lifetime.
    spec fn hostname_spec(&self) -> Seq<char>;

    fn get_hostname(&self) -> (r: &str)
        ensures
            r@ == self.hostname_spec(),
    ;

    /// Copy at most `buf.len()` pending bytes into the front of `buf` and
    /// return the count; `Ok(0)` when no data is ready. Never blocks.
    fn read(&mut self, buf: &mut Vec<u8>) -> (r: Result<usize, IoError>)
        ensures
            final(self).hostname_spec() == old(self).hostname_spec(),
            final(buf)@.len() == old(buf)@.len(),
            match r {
                Ok(n) => n <= old(buf)@.len() && reads_in_order(
                    old(self).pending(),
                    final(buf)@.take(n as int),
                    final(self).pending(),
                ),
                Err(_) => true,
            },
    ;

    /// Attempt to send `bytes`; return how many were accepted. `Ok(0)` means
    /// the transport momentarily accepts nothing: retry on a later tick.
    fn write(&mut self, bytes: &Vec<u8>) -> (r: Result<usize, IoError>)
        ensures
            final(self).hostname_spec() == old(self).hostname_spec(),
            final(self).pending() == old(self).pending(),
            match r {
                Ok(n) => n <= bytes@.len(),
                Err(_) => true,
            },
    ;

    fn flush(&mut self) -> (r: Result<(), IoError>)
        ensures
            final(self).hostname_spec() == old(self).hostname_spec(),
            final(self).pending() == old(self).pending(),
    ;
}

/// The owner of one transport's listening mechanism; the source of new
/// descriptors. `block_until_descriptor` is the only operation of the whole
/// contract allowed to suspend the caller; `new_descriptor` returns at once
/// with a descriptor or with `NoneAvailable`.
pub trait DescriptorManager {
    type D;

    /// Sleep until a later `new_descriptor` call may succeed. May wake
    /// spuriously, but never misses a real arrival and never fabricates one.
    fn block_until_descriptor(&self) -> (r: Result<(), IoError>);

    /// Non-blocking: a freshly owned descriptor, or `NoneAvailable` to keep
    /// polling, or the error that broke the connection source.
    fn new_descriptor(&self) -> (r: Result<Self::D, NewDescriptorError>);
}

/// An in-memory duplex descriptor: the read side drains a FIFO of fed bytes,
/// the write side accepts everything into a buffer the owner collects. It
/// adapts any plain byte source and sink (standard input and output, a test
/// harness) to the [`Descriptor`] contract.
pub struct ByteStreamDescriptor {
    incoming: PendingBuffer,
    written: Vec<u8>,
    hostname: String,
}

impl ByteStreamDescriptor {
    pub fn new(hostname: String) -> (r: Self)
        ensures
            r.pending() == Seq::<u8>::empty(),
            r.hostname_spec() == hostname@,
            r.written_spec() == Seq::<u8>::empty(),
    {
        ByteStreamDescriptor { incoming: PendingBuffer::new(), written: Vec::new(), hostname }
    }

    /// Everything written so far and not yet collected.
    pub closed spec fn written_spec(&self) -> Seq<u8> {
        self.written@
    }

    /// Append bytes arriving from the byte source to the pending queue.
    pub fn feed(&mut self, bytes: &Vec<u8>)
        ensures
            final(self).pending() == old(self).pending() + bytes@,
            final(self).hostname_spec() == old(self).hostname_spec(),
            final(self).written_spec() == old(self).written_spec(),
    {
        let mut i: usize = 0;
        let n = bytes.len();
        while i < n
            invariant
                i <= n,
                n == bytes@.len(),
                self.incoming@ == old(self).pending() + bytes@.take(i as int),
                self.written@ == old(self).written_spec(),
                self.hostname@ == old(self).hostname_spec(),
            decreases n - i,
        {
            self.incoming.push_byte(bytes[i]);
            proof {
                assert(old(self).pending() + bytes@.take(i + 1) =~= (old(self).pending()
                    + bytes@.take(i as int)).push(bytes@[i as int]));
            }
            i = i + 1;
        }
        proof {
            assert(bytes@.take(n as int) =~= bytes@);
        }
    }

    /// Hand out everything written so far, leaving the write side empty; the
    /// owner delivers it to the byte sink.
    pub fn take_written(&mut self) -> (r: Vec<u8>)
        ensures
            r@ == old(self).written_spec(),
            final(self).written_spec() == Seq::<u8>::empty(),
            final(self).pending() == old(self).pending(),
            final(self).hostname_spec() == old(self).hostname_spec(),
    {
        let mut out: Vec<u8> = Vec::new();
        core::mem::swap(&mut out, &mut self.written);
        out
    }
}

impl Descriptor for ByteStreamDescriptor {
    closed spec fn pending(&self) -> Seq<u8> {
        self.incoming@
    }

    closed spec fn hostname_spec(&self) -> Seq<char> {
        self.hostname@
    }

    fn get_hostname(&self) -> (r: &str) {
        self.hostname.as_str()
    }

    fn read(&mut self, buf: &mut Vec<u8>) -> (r: Result<usize, IoError>)
        ensures
            r matches Ok(n) && n == vstd::math::min(
                old(self).pending().len() as int,
                old(buf)@.len() as int,
            ),
            final(self).pending() == old(self).pending().skip(
                vstd::math::min(old(self).pending().len() as int, old(buf)@.len() as int),
            ),
    {
        let n = self.incoming.drain_into(buf);
        proof {
            let k = n as int;
            assert(final(buf)@.take(k) =~= final(buf)@.subrange(0, k));
            assert(old(self).pending().is_prefix_of(final(buf)@.take(k) + self.pending()));
        }
        Ok(n)
    }

    fn write(&mut self, bytes: &Vec<u8>) -> (r: Result<usize, IoError>)
        ensures
            r matches Ok(n) && n == bytes@.len(),
            final(self).written_spec() == old(self).written_spec() + bytes@,
    {
        let mut i: usize = 0;
        let n = bytes.len();
        while i < n
            invariant
                i <= n,
                n == bytes@.len(),
                self.written@ == old(self).written_spec() + bytes@.take(i as int),
                self.incoming@ == old(self).pending(),
                self.hostname@ == old(self).hostname_spec(),
            decreases n - i,
        {
            self.written.push(bytes[i]);
            proof {
                assert(old(self).written_spec() + bytes@.take(i + 1) =~= (old(self).written_spec()
                    + bytes@.take(i as int)).push(bytes@[i as int]));
            }
            i = i + 1;
        }
        proof {
            assert(bytes@.take(n as int) =~= bytes@);
        }
        Ok(n)
    }

    fn flush(&mut self) -> (r: Result<(), IoError>)
        ensures
            r matches Ok(u) && u == (),
    {
        Ok(())
    }
}

} // verus!
