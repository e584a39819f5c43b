//! The chat-platform backend: one descriptor per distinct conversation.
//!
//! Inbound conversation events reach this layer as plain values over relay
//! channels; a [`SlackDescriptor`] turns them into the uniform non-blocking
//! byte-stream contract, queueing each message newline-terminated in a FIFO
//! pending-output queue so that a message larger than the consumer's buffer
//! is delivered intact across several `read` calls. The [`SessionTable`] is
//! the per-conversation state machine: the first event from an unseen
//! conversation opens a session and surfaces exactly one new descriptor, and
//! an event whose relay delivery fails (the consumer closed the descriptor)
//! reopens the session the same way instead of erroring.
//!
//! The outbound network call a `write` needs (one chat-platform API request)
//! cannot be made here; [`prepare_outbound`] and [`write_result`] are the
//! decisions around it, and the caller that owns the HTTP client performs it.

use crate::buffer::line_bytes;
use crate::buffer::PendingBuffer;
use crate::descriptor::DescriptorId;
use crate::descriptor::DescriptorManager;
use crate::descriptor::IoError;
use crate::descriptor::NewDescriptorError;
use vstd::pervasive::VecAdditionalExecFns;
use vstd::prelude::*;
use vstd::string::StringExecFns;

verus! {

#[verifier::external_type_specification]
#[verifier::external_body]
#[verifier::reject_recursive_types(T)]
pub struct ExSender<T>(crossbeam_channel::Sender<T>);

#[verifier::external_type_specification]
#[verifier::external_body]
#[verifier::reject_recursive_types(T)]
pub struct ExReceiver<T>(crossbeam_channel::Receiver<T>);

/// One inbound conversation message: its text, absent for events (such as a
/// deletion) that carry none.
#[derive(Clone)]
pub struct MessageContent {
    pub text: Option<String>,
}

/// What a non-blocking receive found.
enum RecvOutcome {
    /// A queued message.
    Received(MessageContent),
    /// Nothing queued right now.
    Empty,
    /// All senders are gone: the managing side has permanently gone away.
    Disconnected,
}

/// Relies on crossbeam_channel::unbounded: creates a connected FIFO channel
/// pair for relaying one conversation's inbound messages.
#[verifier::external_body]
fn relay_channel() -> (crossbeam_channel::Sender<MessageContent>, crossbeam_channel::Receiver<
    MessageContent,
>) {
    crossbeam_channel::unbounded()
}

/// Relies on crossbeam_channel::Receiver::try_recv: returns a queued message
/// immediately, or reports the channel empty, or disconnected once every
/// sender is dropped. Never blocks.
#[verifier::external_body]
fn try_recv_relay(r: &crossbeam_channel::Receiver<MessageContent>) -> RecvOutcome {
    match r.try_recv() {
        Ok(content) => RecvOutcome::Received(content),
        Err(crossbeam_channel::TryRecvError::Empty) => RecvOutcome::Empty,
        Err(crossbeam_channel::TryRecvError::Disconnected) => RecvOutcome::Disconnected,
    }
}

/// Relies on crossbeam_channel::Sender::send on an unbounded channel: never
/// blocks; returns whether the receiver still exists (delivery), the message
/// being lost otherwise.
#[verifier::external_body]
fn send_relay(s: &crossbeam_channel::Sender<MessageContent>, content: MessageContent) -> bool {
    s.send(content).is_ok()
}

/// The decoding of consumer bytes into one outbound chat message. The result
/// depends on the bytes alone.
pub uninterp spec fn lossy_utf8(bytes: Seq<u8>) -> Seq<char>;

/// Relies on String::from_utf8_lossy: decodes UTF-8, substituting the
/// replacement character for invalid sequences; a function of the bytes
/// alone, and empty input decodes to empty text.
#[verifier::external_body]
fn decode_lossy(bytes: &Vec<u8>) -> (r: String)
    ensures
        r@ == lossy_utf8(bytes@),
        bytes@.len() == 0 ==> r@.len() == 0,
{
    String::from_utf8_lossy(bytes.as_slice()).into_owned()
}

/// The text one `write` call sends to the conversation: the consumer's bytes
/// decoded as UTF-8, invalid sequences replaced rather than erroring.
pub fn prepare_outbound(bytes: &Vec<u8>) -> (text: String)
    ensures
        text@ == lossy_utf8(bytes@),
        bytes@.len() == 0 ==> text@.len() == 0,
{
    decode_lossy(bytes)
}

/// How a `write` call reports the outbound API call's outcome: every byte was
/// accepted when the message was delivered, and a failed call is a hard error
/// for this descriptor only — never a partial count.
pub fn write_result(bytes: &Vec<u8>, delivered: bool) -> (r: Result<usize, IoError>)
    ensures
        delivered ==> r == Ok::<usize, IoError>(bytes@.len() as usize),
        !delivered ==> r == Err::<usize, IoError>(IoError::Other),
{
    if delivered {
        Ok(bytes.len())
    } else {
        Err(IoError::Other)
    }
}

/// Exactly what one `read` call does to a pending queue holding `q`: the
/// front `min(queue length, buffer length)` bytes move into the front of the
/// buffer, the rest stay queued in order, and the buffer's tail past the
/// count is untouched.
pub open spec fn chat_read_drain(
    q: Seq<u8>,
    buf_old: Seq<u8>,
    buf_new: Seq<u8>,
    post: Seq<u8>,
    n: int,
) -> bool {
    &&& n == vstd::math::min(q.len() as int, buf_old.len() as int)
    &&& buf_new.len() == buf_old.len()
    &&& buf_new.take(n) == q.take(n)
    &&& buf_new.skip(n) == buf_old.skip(n)
    &&& post == q.skip(n)
}

/// Successive reads walk the FIFO law chain of [`crate::buffer`]: one call
/// satisfying [`chat_read_drain`] delivers exactly one step of
/// [`crate::buffer::delivered`] and leaves exactly its
/// [`crate::buffer::left_over`].
pub proof fn lemma_read_is_one_fifo_step(
    q: Seq<u8>,
    buf_old: Seq<u8>,
    buf_new: Seq<u8>,
    post: Seq<u8>,
    n: int,
)
    requires
        chat_read_drain(q, buf_old, buf_new, post, n),
    ensures
        buf_new.take(n) == crate::buffer::drained(q, buf_old.len()),
        post == crate::buffer::rest(q, buf_old.len()),
{
}

/// A `read` call that also consumed an inbound message with this text: the
/// line joins the back of the queue before the same drain.
pub open spec fn chat_read_delivery(
    pre: Seq<u8>,
    text: Seq<char>,
    buf_old: Seq<u8>,
    buf_new: Seq<u8>,
    post: Seq<u8>,
    n: int,
) -> bool {
    chat_read_drain(pre + line_bytes(text), buf_old, buf_new, post, n)
}

/// One open conversation, exposed as a byte-duplex descriptor. Created by the
/// session table on the first inbound event from an unseen conversation and
/// owned by the consumer thereafter.
pub struct SlackDescriptor {
    channel_id: String,
    input_channel: crossbeam_channel::Receiver<MessageContent>,
    chat_buffer: PendingBuffer,
    hostname: String,
}

impl SlackDescriptor {
    /// The bytes queued for the consumer and not yet read.
    pub closed spec fn pending(&self) -> Seq<u8> {
        self.chat_buffer@
    }

    pub closed spec fn hostname_spec(&self) -> Seq<char> {
        self.hostname@
    }

    pub closed spec fn channel_spec(&self) -> Seq<char> {
        self.channel_id@
    }

    /// The origin label is synthesized from the conversation identity — never
    /// resolved externally, never failing — and is immutable thereafter.
    pub open spec fn well_formed(&self) -> bool {
        self.hostname_spec() == "SLACK:"@ + self.channel_spec()
    }

    pub fn new(channel_id: String, input_channel: crossbeam_channel::Receiver<MessageContent>) -> (r:
        Self)
        ensures
            r.well_formed(),
            r.channel_spec() == channel_id@,
            r.pending() == Seq::<u8>::empty(),
    {
        let mut hostname = String::from_str("SLACK:");
        hostname.append(channel_id.as_str());
        SlackDescriptor {
            channel_id,
            input_channel,
            chat_buffer: PendingBuffer::new(),
            hostname,
        }
    }

    pub fn get_hostname(&self) -> (r: &str)
        ensures
            r@ == self.hostname_spec(),
    {
        self.hostname.as_str()
    }

    pub fn channel_id(&self) -> (r: &String)
        ensures
            r@ == self.channel_spec(),
    {
        &self.channel_id
    }

    /// Non-blocking read. At most one queued inbound message is consumed —
    /// its text joins the pending queue newline-terminated — and the front of
    /// the queue then drains into `buf`, first-in-first-out, whether or not
    /// anything new arrived. `Ok(0)` exactly when nothing is pending and
    /// nothing arrived; an error only when the managing side is permanently
    /// gone.
    pub fn read(&mut self, buf: &mut Vec<u8>) -> (r: Result<usize, IoError>)
        ensures
            final(self).hostname_spec() == old(self).hostname_spec(),
            final(self).channel_spec() == old(self).channel_spec(),
            final(buf)@.len() == old(buf)@.len(),
            match r {
                Ok(n) => chat_read_drain(
                    old(self).pending(),
                    old(buf)@,
                    final(buf)@,
                    final(self).pending(),
                    n as int,
                ) || (exists|text: Seq<char>|
                    #[trigger] chat_read_delivery(
                        old(self).pending(),
                        text,
                        old(buf)@,
                        final(buf)@,
                        final(self).pending(),
                        n as int,
                    )),
                Err(e) => e == IoError::ConnectionClosed && final(self).pending() == old(
                    self,
                ).pending() && final(buf)@ == old(buf)@,
            },
    {
        let ghost pre = self.chat_buffer@;
        let ghost mut arrival: Option<Seq<char>> = None;
        match try_recv_relay(&self.input_channel) {
            RecvOutcome::Received(content) => match content.text {
                Some(text) => {
                    self.chat_buffer.enqueue_line(text.as_str());
                    proof {
                        arrival = Some(text@);
                    }
                },
                None => {},
            },
            RecvOutcome::Empty => {},
            RecvOutcome::Disconnected => {
                return Err(IoError::ConnectionClosed);
            },
        }
        let ghost q = match arrival {
            Some(text) => pre + line_bytes(text),
            None => pre,
        };
        assert(self.chat_buffer@ == q);
        let n = self.chat_buffer.drain_into(buf);
        proof {
            assert(buf@.take(n as int) =~= buf@.subrange(0, n as int));
            assert(buf@.skip(n as int) =~= buf@.subrange(n as int, buf@.len() as int));
            assert(old(buf)@.skip(n as int) =~= old(buf)@.subrange(
                n as int,
                old(buf)@.len() as int,
            ));
            assert(q.take(n as int) =~= q.subrange(0, n as int));
            assert(q.skip(n as int) =~= q.subrange(n as int, q.len() as int));
            assert(chat_read_drain(q, old(buf)@, buf@, self.pending(), n as int));
            if let Some(text) = arrival {
                assert(chat_read_delivery(pre, text, old(buf)@, buf@, self.pending(), n as int));
            }
        }
        Ok(n)
    }
}

/// What a non-blocking receive of a new descriptor found.
enum DescriptorRecv {
    Received(SlackDescriptor),
    Empty,
    Disconnected,
}

/// Relies on crossbeam_channel::unbounded: creates the connected FIFO channel
/// pair over which the session table surfaces new descriptors to the manager.
#[verifier::external_body]
fn descriptor_channel() -> (crossbeam_channel::Sender<SlackDescriptor>, crossbeam_channel::Receiver<
    SlackDescriptor,
>) {
    crossbeam_channel::unbounded()
}

/// Relies on crossbeam_channel::Receiver::try_recv: returns a queued value
/// immediately, or reports the channel empty or disconnected; a channel
/// delivers only values that were sent into it, and every sender of this
/// channel ([`send_new_descriptor`]) requires a well-formed descriptor with
/// an empty pending queue.
#[verifier::external_body]
fn try_recv_descriptor(r: &crossbeam_channel::Receiver<SlackDescriptor>) -> (out: DescriptorRecv)
    ensures
        out matches DescriptorRecv::Received(d) ==> d.well_formed() && d.pending()
            == Seq::<u8>::empty(),
{
    match r.try_recv() {
        Ok(d) => DescriptorRecv::Received(d),
        Err(crossbeam_channel::TryRecvError::Empty) => DescriptorRecv::Empty,
        Err(crossbeam_channel::TryRecvError::Disconnected) => DescriptorRecv::Disconnected,
    }
}

/// Relies on crossbeam_channel::Sender::send on an unbounded channel: never
/// blocks; returns whether the receiving manager still exists.
#[verifier::external_body]
fn send_new_descriptor(
    s: &crossbeam_channel::Sender<SlackDescriptor>,
    descriptor: SlackDescriptor,
) -> bool
    requires
        descriptor.well_formed(),
        descriptor.pending() == Seq::<u8>::empty(),
{
    s.send(descriptor).is_ok()
}

/// Relies on crossbeam_channel::Select::ready (with the receiver registered
/// through Select::recv): suspends the calling thread until a receive
/// operation on the channel can proceed — a value is queued or the channel
/// has disconnected. Used only for the idle-tick blocking wait.
#[verifier::external_body]
fn wait_until_ready(r: &crossbeam_channel::Receiver<SlackDescriptor>) {
    let mut sel = crossbeam_channel::Select::new();
    sel.recv(r);
    let _ = sel.ready();
}

/// The chat backend's manager: receives each newly opened conversation's
/// descriptor from the session table and hands each out exactly once, in
/// arrival order. It also offers a registry keyed by descriptor identity for
/// consumers that address descriptors by id rather than owning them.
pub struct SlackDescriptorManager {
    new_descriptors: crossbeam_channel::Receiver<SlackDescriptor>,
    bot_token: String,
    descriptors: Vec<(DescriptorId, SlackDescriptor)>,
}

impl SlackDescriptorManager {
    /// The identities of the registered descriptors, in registration order.
    pub closed spec fn ids(&self) -> Seq<Seq<char>> {
        self.descriptors@.map_values(|p: (DescriptorId, SlackDescriptor)| p.0.identifier@)
    }

    pub open spec fn knows(&self, ident: Seq<char>) -> bool {
        self.ids().contains(ident)
    }

    /// The position of the descriptor registered under this identity; under
    /// well-formedness there is at most one.
    pub closed spec fn index_of_ident(&self, ident: Seq<char>) -> int {
        choose|i: int| 0 <= i < self.ids().len() && self.ids()[i] == ident
    }

    /// The bytes queued, and not yet read, for the conversation registered
    /// under this identity; empty when none is registered.
    pub closed spec fn pending_of(&self, ident: Seq<char>) -> Seq<u8> {
        if self.knows(ident) {
            self.descriptors@[self.index_of_ident(ident)].1.pending()
        } else {
            Seq::<u8>::empty()
        }
    }

    proof fn lemma_entry_pending(&self, i: int)
        requires
            self.wf(),
            0 <= i < self.descriptors@.len(),
        ensures
            self.knows(self.ids()[i]),
            self.index_of_ident(self.ids()[i]) == i,
            self.pending_of(self.ids()[i]) == self.descriptors@[i].1.pending(),
    {
        let ident = self.ids()[i];
        assert(self.ids()[i] == ident);
        let j = self.index_of_ident(ident);
        assert(0 <= j < self.ids().len() && self.ids()[j] == ident) by {
            assert(exists|k: int| 0 <= k < self.ids().len() && self.ids()[k] == ident);
        }
        assert(j == i);
    }

    /// At most one registered descriptor per conversation identity, each
    /// well formed and registered under its own conversation id.
    pub closed spec fn wf(&self) -> bool {
        &&& self.ids().no_duplicates()
        &&& forall|i: int|
            0 <= i < self.descriptors@.len() ==> {
                &&& (#[trigger] self.descriptors@[i]).1.well_formed()
                &&& self.descriptors@[i].0.identifier@ == self.descriptors@[i].1.channel_spec()
                &&& self.descriptors@[i].0.descriptor_type@ == "SLACK"@
            }
    }

    /// Create the manager and the sending half of its new-descriptor channel;
    /// the caller wires that half to the session table the webhook server
    /// feeds.
    pub fn new(bot_token: String) -> (r: (Self, crossbeam_channel::Sender<SlackDescriptor>))
        ensures
            r.0.wf(),
            r.0.ids() == Seq::<Seq<char>>::empty(),
    {
        let (sender, receiver) = descriptor_channel();
        let manager = SlackDescriptorManager {
            new_descriptors: receiver,
            bot_token,
            descriptors: Vec::new(),
        };
        proof {
            assert(manager.ids() =~= Seq::<Seq<char>>::empty());
        }
        (manager, sender)
    }

    /// The token the owner of the outbound HTTP client authenticates with.
    pub fn bot_token(&self) -> &String {
        &self.bot_token
    }

    fn find(&self, ident: &String) -> (r: Option<usize>)
        ensures
            match r {
                Some(i) => i < self.descriptors@.len() && self.descriptors@[i as int].0.identifier@
                    == ident@ && self.ids()[i as int] == ident@ && self.knows(ident@),
                None => !self.knows(ident@),
            },
    {
        let mut i: usize = 0;
        let n = self.descriptors.len();
        while i < n
            invariant
                i <= n,
                n == self.descriptors@.len(),
                forall|j: int| 0 <= j < i ==> self.ids()[j] != ident@,
            decreases n - i,
        {
            if self.descriptors[i].0.identifier == *ident {
                proof {
                    assert(self.ids()[i as int] == self.descriptors@[i as int].0.identifier@);
                }
                return Some(i);
            }
            i = i + 1;
        }
        None
    }

    /// Whether a descriptor is registered under this identity.
    pub fn knows_descriptor(&self, id: &DescriptorId) -> (b: bool)
        ensures
            b == self.knows(id.identifier@),
    {
        self.find(&id.identifier).is_some()
    }

    /// Non-blocking: take the next surfaced descriptor, register it, and
    /// return its identity. Each surfaced descriptor is registered and
    /// reported at most once; a conversation reopened after its previous
    /// descriptor was closed replaces that registration rather than
    /// duplicating it. `None` when nothing is available (or when the session
    /// table side is gone — the registry never treats polling as an error).
    pub fn get_new_descriptor(&mut self) -> (r: Option<DescriptorId>)
        requires
            old(self).wf(),
        ensures
            final(self).wf(),
            match r {
                Some(id) => {
                    &&& id.descriptor_type@ == "SLACK"@
                    &&& final(self).knows(id.identifier@)
                    &&& final(self).pending_of(id.identifier@) == Seq::<u8>::empty()
                    &&& (old(self).knows(id.identifier@) ==> final(self).ids() == old(self).ids())
                    &&& (!old(self).knows(id.identifier@) ==> final(self).ids() == old(
                        self,
                    ).ids().push(id.identifier@))
                },
                None => final(self).ids() == old(self).ids(),
            },
    {
        match try_recv_descriptor(&self.new_descriptors) {
            DescriptorRecv::Received(descriptor) => {
                let stored_id = DescriptorId::new(descriptor.channel_id().as_str(), "SLACK");
                let ret_id = DescriptorId::new(descriptor.channel_id().as_str(), "SLACK");
                match self.find(&stored_id.identifier) {
                    Some(i) => {
                        self.descriptors.set(i, (stored_id, descriptor));
                        proof {
                            assert(self.ids() =~= old(self).ids());
                            self.lemma_entry_pending(i as int);
                        }
                    },
                    None => {
                        self.descriptors.push((stored_id, descriptor));
                        proof {
                            let ident = ret_id.identifier@;
                            assert(self.ids() =~= old(self).ids().push(ident));
                            let last = self.ids().len() - 1;
                            assert forall|a: int, b: int|
                                0 <= a < self.ids().len() && 0 <= b < self.ids().len() && a
                                    != b implies self.ids()[a] != self.ids()[b] by {
                                if a == last {
                                    assert(old(self).ids()[b] != ident);
                                } else if b == last {
                                    assert(old(self).ids()[a] != ident);
                                } else {
                                    assert(old(self).ids()[a] != old(self).ids()[b]);
                                }
                            }
                            self.lemma_entry_pending(last);
                        }
                    },
                }
                Some(ret_id)
            },
            DescriptorRecv::Empty => None,
            DescriptorRecv::Disconnected => None,
        }
    }

    /// Close a registered descriptor: remove it from the registry, dropping
    /// its relay endpoint so the session table will open a fresh session on
    /// the conversation's next inbound message.
    pub fn close_descriptor(&mut self, id: &DescriptorId)
        requires
            old(self).wf(),
        ensures
            final(self).wf(),
            !final(self).knows(id.identifier@),
            old(self).knows(id.identifier@) ==> final(self).ids().len() == old(self).ids().len()
                - 1,
            !old(self).knows(id.identifier@) ==> final(self).ids() == old(self).ids(),
    {
        match self.find(&id.identifier) {
            Some(i) => {
                let _ = self.descriptors.remove(i);
                proof {
                    old(self).descriptors@.remove_ensures(i as int);
                    assert(self.ids() =~= old(self).ids().remove(i as int));
                    old(self).ids().remove_ensures(i as int);
                    assert forall|a: int, b: int|
                        0 <= a < self.ids().len() && 0 <= b < self.ids().len() && a
                            != b implies self.ids()[a] != self.ids()[b] by {
                        let a0: int = if a < i { a } else { a + 1 };
                        let b0: int = if b < i { b } else { b + 1 };
                        assert(self.ids()[a] == old(self).ids()[a0]);
                        assert(self.ids()[b] == old(self).ids()[b0]);
                    }
                    assert(!self.knows(id.identifier@)) by {
                        if self.knows(id.identifier@) {
                            let j = choose|j: int|
                                0 <= j < self.ids().len() && self.ids()[j] == id.identifier@;
                            let j0: int = if j < i { j } else { j + 1 };
                            assert(self.ids()[j] == old(self).ids()[j0]);
                            assert(old(self).ids()[i as int] == id.identifier@);
                        }
                    }
                }
            },
            None => (),
        }
    }

    /// Read from the registered descriptor with this identity: `None` exactly
    /// when no descriptor is registered under it, otherwise the descriptor's
    /// own non-blocking read result, with every other registration untouched.
    pub fn read_registered(&mut self, id: &DescriptorId, buf: &mut Vec<u8>) -> (r: Option<
        Result<usize, IoError>,
    >)
        requires
            old(self).wf(),
        ensures
            final(self).wf(),
            final(self).ids() == old(self).ids(),
            final(buf)@.len() == old(buf)@.len(),
            r is None <==> !old(self).knows(id.identifier@),
            forall|c: Seq<char>|
                c != id.identifier@ ==> #[trigger] final(self).pending_of(c) == old(
                    self,
                ).pending_of(c),
            match r {
                None => final(buf)@ == old(buf)@ && final(self).pending_of(id.identifier@) == old(
                    self,
                ).pending_of(id.identifier@),
                Some(res) => match res {
                    Ok(n) => chat_read_drain(
                        old(self).pending_of(id.identifier@),
                        old(buf)@,
                        final(buf)@,
                        final(self).pending_of(id.identifier@),
                        n as int,
                    ) || (exists|text: Seq<char>|
                        #[trigger] chat_read_delivery(
                            old(self).pending_of(id.identifier@),
                            text,
                            old(buf)@,
                            final(buf)@,
                            final(self).pending_of(id.identifier@),
                            n as int,
                        )),
                    Err(e) => e == IoError::ConnectionClosed && final(self).pending_of(
                        id.identifier@,
                    ) == old(self).pending_of(id.identifier@) && final(buf)@ == old(buf)@,
                },
            },
    {
        match self.find(&id.identifier) {
            Some(i) => {
                proof {
                    self.lemma_entry_pending(i as int);
                }
                let mut entry = self.descriptors.remove(i);
                let res = entry.1.read(buf);
                self.descriptors.insert(i, entry);
                proof {
                    let ident = id.identifier@;
                    let oldd = old(self).descriptors@;
                    let e1 = self.descriptors@[i as int];
                    assert(self.descriptors@ =~= oldd.update(i as int, e1));
                    assert(self.ids() =~= old(self).ids());
                    assert(self.wf());
                    self.lemma_entry_pending(i as int);
                    assert(self.pending_of(ident) == e1.1.pending());
                    assert forall|c: Seq<char>| c != ident implies self.pending_of(c) == old(
                        self,
                    ).pending_of(c) by {
                        if old(self).knows(c) {
                            let j = old(self).index_of_ident(c);
                            assert(0 <= j < old(self).ids().len() && old(self).ids()[j] == c) by {
                                assert(exists|k: int|
                                    0 <= k < old(self).ids().len() && old(self).ids()[k] == c);
                            }
                            assert(j != i);
                            old(self).lemma_entry_pending(j);
                            self.lemma_entry_pending(j);
                        } else {
                            assert(!self.knows(c));
                        }
                    }
                    if let Ok(n) = res {
                        if !chat_read_drain(
                            oldd[i as int].1.pending(),
                            old(buf)@,
                            buf@,
                            e1.1.pending(),
                            n as int,
                        ) {
                            let text = choose|text: Seq<char>|
                                chat_read_delivery(
                                    oldd[i as int].1.pending(),
                                    text,
                                    old(buf)@,
                                    buf@,
                                    e1.1.pending(),
                                    n as int,
                                );
                            assert(chat_read_delivery(
                                old(self).pending_of(ident),
                                text,
                                old(buf)@,
                                buf@,
                                self.pending_of(ident),
                                n as int,
                            ));
                        }
                    }
                }
                Some(res)
            },
            None => None,
        }
    }

    /// The conversation identity behind a registered descriptor, for the
    /// owner of the outbound HTTP client; `None` exactly when the identity is
    /// not registered.
    pub fn channel_of(&self, id: &DescriptorId) -> (r: Option<&String>)
        requires
            self.wf(),
        ensures
            r is None <==> !self.knows(id.identifier@),
            match r {
                Some(c) => c@ == id.identifier@,
                None => true,
            },
    {
        match self.find(&id.identifier) {
            Some(i) => Some(self.descriptors[i].1.channel_id()),
            None => None,
        }
    }
}

impl DescriptorManager for SlackDescriptorManager {
    type D = SlackDescriptor;

    /// Suspend until a receive on the new-descriptor channel can proceed.
    fn block_until_descriptor(&self) -> (r: Result<(), IoError>)
        ensures
            r == Ok::<(), IoError>(()),
    {
        wait_until_ready(&self.new_descriptors);
        Ok(())
    }

    /// Non-blocking: the next surfaced descriptor, owned by the caller —
    /// handed out exactly once, fresh, with nothing pending.
    fn new_descriptor(&self) -> (r: Result<SlackDescriptor, NewDescriptorError>)
        ensures
            match r {
                Ok(d) => d.well_formed() && d.pending() == Seq::<u8>::empty(),
                Err(NewDescriptorError::NoneAvailable) => true,
                Err(NewDescriptorError::Io(e)) => e == IoError::ConnectionClosed,
            },
    {
        match try_recv_descriptor(&self.new_descriptors) {
            DescriptorRecv::Received(d) => Ok(d),
            DescriptorRecv::Empty => Err(NewDescriptorError::NoneAvailable),
            DescriptorRecv::Disconnected => Err(
                NewDescriptorError::Io(IoError::ConnectionClosed),
            ),
        }
    }
}

/// One inbound push event, reduced to the values the session state machine
/// reads: the conversation it came from, the kind of channel, whether a bot
/// sent it, and its content if it carries any.
pub struct PushMessage {
    pub channel: Option<String>,
    pub channel_type: Option<String>,
    pub from_bot: bool,
    pub content: Option<MessageContent>,
}

/// The event filter: only direct-message events from non-bot senders, naming
/// their conversation, reach the session state machine.
pub open spec fn is_direct_message(msg: &PushMessage) -> bool {
    &&& msg.channel_type matches Some(t) && t@ == "im"@
    &&& !msg.from_bot
    &&& msg.channel is Some
}

/// The conversation identity of a direct-message event.
pub open spec fn msg_channel(msg: &PushMessage) -> Seq<char> {
    msg.channel->0@
}

/// What the state machine does with one event.
#[derive(Clone, Copy, Debug, PartialEq, Eq, Structural)]
pub enum RouteDecision {
    /// Filtered out, or a known conversation's event without content.
    Ignore,
    /// First event from an unseen conversation: open a session and surface a
    /// descriptor; the triggering event itself is connection establishment,
    /// not content.
    OpenSession,
    /// A known conversation's content: forward it over the session's relay.
    Forward,
}

/// The transition function of the per-conversation state machine, given
/// whether the event's conversation already has a session.
pub open spec fn route_spec(msg: &PushMessage, known: bool) -> RouteDecision {
    if !is_direct_message(msg) {
        RouteDecision::Ignore
    } else if !known {
        RouteDecision::OpenSession
    } else if msg.content is None {
        RouteDecision::Ignore
    } else {
        RouteDecision::Forward
    }
}

/// The conversation a direct-message event names, or `None` for everything
/// the filter discards.
fn direct_message_channel<'a>(msg: &'a PushMessage) -> (r: Option<&'a String>)
    ensures
        match r {
            Some(c) => is_direct_message(msg) && c@ == msg_channel(msg),
            None => !is_direct_message(msg),
        },
{
    if msg.from_bot {
        return None;
    }
    match (&msg.channel_type, &msg.channel) {
        (Some(t), Some(c)) => {
            let im = String::from_str("im");
            if *t == im {
                Some(c)
            } else {
                None
            }
        },
        _ => None,
    }
}

/// The transition the state machine takes for this event.
pub fn route(msg: &PushMessage, known: bool) -> (r: RouteDecision)
    ensures
        r == route_spec(msg, known),
{
    match direct_message_channel(msg) {
        Some(_) => {
            if !known {
                RouteDecision::OpenSession
            } else {
                match &msg.content {
                    None => RouteDecision::Ignore,
                    Some(_) => RouteDecision::Forward,
                }
            }
        },
        None => RouteDecision::Ignore,
    }
}

/// How the session table disposed of one event.
#[derive(Clone, Copy, Debug, PartialEq, Eq, Structural)]
pub enum HandleOutcome {
    /// The filter discarded it, or a known conversation sent no content.
    Ignored,
    /// A new session was opened and its descriptor surfaced.
    SessionOpened,
    /// The content went over the existing session's relay.
    Forwarded,
    /// The existing relay was dead — the consumer closed its descriptor — so
    /// a fresh session was opened and a new descriptor surfaced instead of an
    /// error.
    SessionReopened,
    /// The manager side is gone; the descriptor could not be surfaced.
    ManagerGone,
}

struct SessionEntry {
    channel: String,
    relay: crossbeam_channel::Sender<MessageContent>,
}

/// The per-conversation session registry the webhook server drives: for each
/// conversation with a live session, the sending half of its relay. Owned
/// state, keyed by conversation identity, with at most one session per
/// conversation.
pub struct SessionTable {
    entries: Vec<SessionEntry>,
    outbox: crossbeam_channel::Sender<SlackDescriptor>,
}

impl SessionTable {
    /// The conversations that currently have a session, in creation order.
    pub closed spec fn channels(&self) -> Seq<Seq<char>> {
        self.entries@.map_values(|e: SessionEntry| e.channel@)
    }

    pub open spec fn knows(&self, channel: Seq<char>) -> bool {
        self.channels().contains(channel)
    }

    /// At most one live session per conversation identity.
    pub closed spec fn wf(&self) -> bool {
        self.channels().no_duplicates()
    }

    /// A fresh table feeding new descriptors into `outbox` — the sending half
    /// of the channel a [`SlackDescriptorManager`] receives from.
    pub fn new(outbox: crossbeam_channel::Sender<SlackDescriptor>) -> (r: Self)
        ensures
            r.wf(),
            r.channels() == Seq::<Seq<char>>::empty(),
    {
        let table = SessionTable { entries: Vec::new(), outbox };
        proof {
            assert(table.channels() =~= Seq::<Seq<char>>::empty());
        }
        table
    }

    fn find(&self, channel: &String) -> (r: Option<usize>)
        ensures
            match r {
                Some(i) => i < self.entries@.len() && self.channels()[i as int] == channel@
                    && self.knows(channel@),
                None => !self.knows(channel@),
            },
    {
        let mut i: usize = 0;
        let n = self.entries.len();
        while i < n
            invariant
                i <= n,
                n == self.entries@.len(),
                forall|j: int| 0 <= j < i ==> self.channels()[j] != channel@,
            decreases n - i,
        {
            if self.entries[i].channel == *channel {
                proof {
                    assert(self.channels()[i as int] == self.entries@[i as int].channel@);
                }
                return Some(i);
            }
            i = i + 1;
        }
        None
    }

    /// Whether this conversation currently has a session.
    pub fn knows_channel(&self, channel: &String) -> (b: bool)
        ensures
            b == self.knows(channel@),
    {
        self.find(channel).is_some()
    }

    /// The Unknown→Active transition, also used to recreate a dead session:
    /// open a fresh relay, build the conversation's descriptor around its
    /// receiving end, surface that one descriptor to the manager, and install
    /// the sending half — replacing the conversation's old relay if one
    /// exists, so the conversation never holds two sessions. Returns whether
    /// the manager side still existed to take the descriptor.
    pub fn open_session(&mut self, channel: &String) -> (delivered: bool)
        requires
            old(self).wf(),
        ensures
            final(self).wf(),
            final(self).knows(channel@),
            old(self).knows(channel@) ==> final(self).channels() == old(self).channels(),
            !old(self).knows(channel@) ==> final(self).channels() == old(self).channels().push(
                channel@,
            ),
    {
        let (sender, receiver) = relay_channel();
        let descriptor = SlackDescriptor::new(channel.clone(), receiver);
        let delivered = send_new_descriptor(&self.outbox, descriptor);
        let entry = SessionEntry { channel: channel.clone(), relay: sender };
        match self.find(channel) {
            Some(i) => {
                self.entries.set(i, entry);
                proof {
                    assert(self.channels() =~= old(self).channels());
                }
            },
            None => {
                self.entries.push(entry);
                proof {
                    assert(self.channels() =~= old(self).channels().push(channel@));
                    let last = self.channels().len() - 1;
                    assert(self.channels()[last] == channel@);
                    assert forall|a: int, b: int|
                        0 <= a < self.channels().len() && 0 <= b < self.channels().len() && a
                            != b implies self.channels()[a] != self.channels()[b] by {
                        if a == last {
                            assert(old(self).channels()[b] != channel@);
                        } else if b == last {
                            assert(old(self).channels()[a] != channel@);
                        } else {
                            assert(old(self).channels()[a] != old(self).channels()[b]);
                        }
                    }
                }
            },
        }
        delivered
    }

    /// Dispose of one inbound event, exactly as the state machine directs:
    /// discard what the filter rejects; open a session (and surface exactly
    /// one descriptor) for an unseen conversation, discarding the triggering
    /// event as connection establishment; forward a known conversation's
    /// content over its relay; and when that delivery fails because the
    /// consumer closed the descriptor, reopen the session — surfacing exactly
    /// one fresh descriptor — rather than erroring.
    pub fn handle_message(&mut self, msg: &PushMessage) -> (r: HandleOutcome)
        requires
            old(self).wf(),
        ensures
            final(self).wf(),
            match route_spec(msg, old(self).knows(msg_channel(msg))) {
                RouteDecision::Ignore => r == HandleOutcome::Ignored && final(self).channels()
                    == old(self).channels(),
                RouteDecision::OpenSession => {
                    &&& (r == HandleOutcome::SessionOpened || r == HandleOutcome::ManagerGone)
                    &&& final(self).channels() == old(self).channels().push(msg_channel(msg))
                    &&& final(self).knows(msg_channel(msg))
                },
                RouteDecision::Forward => {
                    &&& (r == HandleOutcome::Forwarded || r == HandleOutcome::SessionReopened || r
                        == HandleOutcome::ManagerGone)
                    &&& final(self).channels() == old(self).channels()
                    &&& final(self).knows(msg_channel(msg))
                },
            },
            r == HandleOutcome::Forwarded || r == HandleOutcome::SessionReopened ==> route_spec(
                msg,
                old(self).knows(msg_channel(msg)),
            ) == RouteDecision::Forward,
            r == HandleOutcome::SessionOpened ==> route_spec(
                msg,
                old(self).knows(msg_channel(msg)),
            ) == RouteDecision::OpenSession,
            r == HandleOutcome::Ignored ==> route_spec(msg, old(self).knows(msg_channel(msg)))
                == RouteDecision::Ignore,
    {
        let channel = match direct_message_channel(msg) {
            Some(c) => c,
            None => {
                return HandleOutcome::Ignored;
            },
        };
        match self.find(channel) {
            None => {
                if self.open_session(channel) {
                    HandleOutcome::SessionOpened
                } else {
                    HandleOutcome::ManagerGone
                }
            },
            Some(i) => match &msg.content {
                None => HandleOutcome::Ignored,
                Some(content) => {
                    let ok = send_relay(&self.entries[i].relay, content.clone());
                    if ok {
                        HandleOutcome::Forwarded
                    } else {
                        if self.open_session(channel) {
                            HandleOutcome::SessionReopened
                        } else {
                            HandleOutcome::ManagerGone
                        }
                    }
                },
            },
        }
    }
}

} // verus!
