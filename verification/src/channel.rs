use vstd::prelude::*;
use crate::buffer::OsIpcSharedMemory;
use crate::error::ChannelError;

verus! {

/// One transfer unit of a channel: payload bytes, carried channel endpoints,
/// and carried shared buffers, each in order.
pub(crate) struct ChannelMessage {
    pub(crate) data: Vec<u8>,
    pub(crate) channels: Vec<OsIpcChannel>,
    pub(crate) shmems: Vec<OsIpcSharedMemory>,
}

/// The sending half of the underlying unbounded crossbeam queue of messages.
///
/// A message can itself carry such an endpoint, so declaring
/// crossbeam_channel::Sender<ChannelMessage> directly is refused as a
/// recursive type; the endpoint is held opaquely instead and used only
/// through the wrappers below. The queue it feeds is shared, concurrently
/// mutable state, so no contract names the queue's contents.
#[verifier::external_body]
pub(crate) struct MessageSender {
    inner: crossbeam_channel::Sender<ChannelMessage>,
}

/// The receiving half of the underlying unbounded crossbeam queue of
/// messages, held opaquely for the same reason as MessageSender.
#[verifier::external_body]
pub(crate) struct MessageReceiver {
    inner: crossbeam_channel::Receiver<ChannelMessage>,
}

/// Relies on crossbeam_channel::unbounded: a connected pair of endpoints
/// over a fresh, empty, unbounded FIFO queue.
#[verifier::external_body]
pub(crate) fn new_message_channel() -> (MessageSender, MessageReceiver) {
    let (tx, rx) = crossbeam_channel::unbounded::<ChannelMessage>();
    (MessageSender { inner: tx }, MessageReceiver { inner: rx })
}

/// Relies on crossbeam_channel::Sender::send on an unbounded queue: it never
/// blocks; it enqueues the message and returns Ok, except when every
/// receiving half of the queue is gone, in which case it rejects the
/// message. The result is reduced here to that success bit.
#[verifier::external_body]
pub(crate) fn send_message(s: &MessageSender, m: ChannelMessage) -> bool {
    s.inner.send(m).is_ok()
}

/// Relies on crossbeam_channel::Sender::clone: the clone feeds the same
/// queue as the original.
#[verifier::external_body]
pub(crate) fn clone_message_sender(s: &MessageSender) -> MessageSender {
    MessageSender { inner: s.inner.clone() }
}

/// Relies on crossbeam_channel::Receiver::recv: blocks until a message
/// arrives (Some) or the queue is empty with every sender gone (None).
/// Which of the two comes back depends on what other threads send, so
/// nothing more is assumed of the outcome.
#[verifier::external_body]
pub(crate) fn recv_message(r: &MessageReceiver) -> Option<ChannelMessage> {
    r.inner.recv().ok()
}

/// What a non-blocking probe of the queue found.
pub(crate) enum QueueProbe {
    Data(ChannelMessage),
    Empty,
    Disconnected,
}

/// Relies on crossbeam_channel::Receiver::try_recv: never blocks; hands back
/// a pending message, or Empty when none is queued and a sender remains, or
/// Disconnected when none is queued and every sender is gone.
#[verifier::external_body]
pub(crate) fn probe_message(r: &MessageReceiver) -> QueueProbe {
    match r.inner.try_recv() {
        Ok(m) => QueueProbe::Data(m),
        Err(crossbeam_channel::TryRecvError::Empty) => QueueProbe::Empty,
        Err(crossbeam_channel::TryRecvError::Disconnected) => QueueProbe::Disconnected,
    }
}

/// Relies on crossbeam_channel::Select::select and
/// SelectedOperation::recv: registers every listed receiving endpoint,
/// blocks until one of them is ready (a message pending, or every sender of
/// its queue gone), and completes the receive on that one. Hands back the
/// ready endpoint's index in the list — always below the list's length —
/// together with the message received from it, or None when its queue is
/// empty with every sender gone.
#[verifier::external_body]
pub(crate) fn wait_receive(rs: &Vec<&MessageReceiver>) -> (r: (usize, Option<ChannelMessage>))
    requires
        rs@.len() > 0,
    ensures
        r.0 < rs@.len(),
{
    let mut sel = crossbeam_channel::Select::new();
    for r in rs.iter() {
        sel.recv(&r.inner);
    }
    let oper = sel.select();
    let idx = oper.index();
    (idx, oper.recv(&rs[idx].inner).ok())
}

/// The sending half of a channel. Clones share the queue, so any number of
/// threads may hold one and send concurrently.
pub struct OsIpcSender {
    sender: MessageSender,
}

/// The receiving resource of a channel. Releasing it (by drop) is what makes
/// later sends fail with BrokenPipe.
pub struct OsIpcReceiverInner {
    pub(crate) receiver: MessageReceiver,
}

/// The single receiving handle of a channel: a holder that either owns the
/// receiving resource or is empty because `consume` moved the resource into
/// another handle.
pub struct OsIpcReceiver {
    pub(crate) inner: Option<OsIpcReceiverInner>,
}

/// A new channel: a cloneable sender and the single receiver over a fresh,
/// empty, unbounded FIFO queue. Construction itself cannot fail.
pub fn channel() -> (r: Result<(OsIpcSender, OsIpcReceiver), ChannelError>)
    ensures
        r is Ok,
        r matches Ok(pair) ==> pair.1.is_live(),
{
    let (tx, rx) = new_message_channel();
    Ok((OsIpcSender { sender: tx }, OsIpcReceiver { inner: Some(OsIpcReceiverInner { receiver: rx }) }))
}

impl Clone for OsIpcSender {
    /// The clone feeds the same queue as the original.
    fn clone(&self) -> Self {
        OsIpcSender { sender: clone_message_sender(&self.sender) }
    }
}

impl OsIpcSender {
    /// Messages are never fragmented by this in-process transport.
    pub fn get_max_fragment_size() -> (r: usize)
        ensures
            r == usize::MAX,
    {
        usize::MAX
    }

    /// Enqueues one message made of `data`, `ports` and
    /// `shared_memory_regions`. Never blocks (the queue is unbounded), and
    /// the only failure is BrokenPipe, raised exactly when the channel's
    /// receiving resource was already released.
    pub fn send(
        &self,
        data: &[u8],
        ports: Vec<OsIpcChannel>,
        shared_memory_regions: Vec<OsIpcSharedMemory>,
    ) -> (r: Result<(), ChannelError>)
        ensures
            r matches Err(e) ==> e == ChannelError::BrokenPipeError,
    {
        let msg = ChannelMessage {
            data: vstd::slice::slice_to_vec(data),
            channels: ports,
            shmems: shared_memory_regions,
        };
        if send_message(&self.sender, msg) {
            Ok(())
        } else {
            Err(ChannelError::BrokenPipeError)
        }
    }
}

/// Turns a received message into what the receiving calls hand out: the
/// payload bytes, each carried endpoint wrapped as an opaque channel in its
/// original order, and the carried buffers.
pub(crate) fn unpack_message(m: ChannelMessage) -> (r: (
    Vec<u8>,
    Vec<OsOpaqueIpcChannel>,
    Vec<OsIpcSharedMemory>,
))
    ensures
        r.0 == m.data,
        r.2 == m.shmems,
        r.1@.len() == m.channels@.len(),
        forall|k: int| 0 <= k < m.channels@.len() ==> r.1@[k].wrapped() == Some(m.channels@[k]),
{
    let ChannelMessage { data, mut channels, shmems } = m;
    let ghost orig: Seq<OsIpcChannel> = channels@;
    let mut wrapped: Vec<OsOpaqueIpcChannel> = Vec::new();
    while channels.len() > 0
        invariant
            wrapped@.len() + channels@.len() == orig.len(),
            channels@ == orig.subrange(wrapped@.len() as int, orig.len() as int),
            forall|k: int| 0 <= k < wrapped@.len() ==> wrapped@[k].wrapped() == Some(orig[k]),
        decreases channels@.len(),
    {
        let c = channels.remove(0);
        assert(c == orig[wrapped@.len() as int]);
        wrapped.push(OsOpaqueIpcChannel::new(c));
        proof {
            assert(channels@ =~= orig.subrange(wrapped@.len() as int, orig.len() as int));
        }
    }
    (data, wrapped, shmems)
}

impl OsIpcReceiver {
    /// The receiving resource this handle owns, if any.
    pub closed spec fn endpoint(&self) -> Option<OsIpcReceiverInner> {
        self.inner
    }

    /// True while this handle still owns the receiving resource.
    pub open spec fn is_live(&self) -> bool {
        self.endpoint() is Some
    }

    /// Transfers the receiving resource into a new handle; this handle
    /// becomes empty, permanently.
    pub fn consume(&mut self) -> (r: OsIpcReceiver)
        ensures
            r.endpoint() == old(self).endpoint(),
            !final(self).is_live(),
    {
        let mut taken = OsIpcReceiver { inner: None };
        core::mem::swap(self, &mut taken);
        taken
    }

    /// The slot of a live holder is filled, and it is the resource the
    /// handle owns. (Crate-internal: the field itself is not public.)
    pub(crate) proof fn lemma_live_inner(&self)
        requires
            self.is_live(),
        ensures
            self.inner is Some,
            self.inner == self.endpoint(),
    {
    }

    /// Blocks until a message is available, or fails with ChannelClosed once
    /// the queue is empty and every sender is gone. No other error occurs.
    pub fn recv(&self) -> (r: Result<
        (Vec<u8>, Vec<OsOpaqueIpcChannel>, Vec<OsIpcSharedMemory>),
        ChannelError,
    >)
        requires
            self.is_live(),
        ensures
            r matches Err(e) ==> e == ChannelError::ChannelClosedError,
    {
        let inner = self.inner.as_ref().unwrap();
        match recv_message(&inner.receiver) {
            Some(m) => Ok(unpack_message(m)),
            None => Err(ChannelError::ChannelClosedError),
        }
    }

    /// Never blocks. Fails with Unknown when nothing is queued but a sender
    /// remains, and with ChannelClosed when nothing is queued and every
    /// sender is gone. No other error occurs.
    pub fn try_recv(&self) -> (r: Result<
        (Vec<u8>, Vec<OsOpaqueIpcChannel>, Vec<OsIpcSharedMemory>),
        ChannelError,
    >)
        requires
            self.is_live(),
        ensures
            r matches Err(e) ==> e == ChannelError::UnknownError
                || e == ChannelError::ChannelClosedError,
    {
        let inner = self.inner.as_ref().unwrap();
        match probe_message(&inner.receiver) {
            QueueProbe::Data(m) => Ok(unpack_message(m)),
            QueueProbe::Empty => Err(ChannelError::UnknownError),
            QueueProbe::Disconnected => Err(ChannelError::ChannelClosedError),
        }
    }
}

/// Either half of a channel, as placed inside a message for transfer.
pub enum OsIpcChannel {
    Sender(OsIpcSender),
    Receiver(OsIpcReceiver),
}

/// A channel endpoint that travelled inside a message, its direction not yet
/// resolved. The slot holds exactly one endpoint until a direction-specific
/// accessor moves it out; after that the wrapper is permanently empty, and
/// both accessors demand of their caller that the slot still holds an
/// endpoint of the matching direction.
pub struct OsOpaqueIpcChannel {
    slot: Option<OsIpcChannel>,
}

impl OsOpaqueIpcChannel {
    /// The endpoint still held, if it was not yet moved out.
    pub closed spec fn wrapped(&self) -> Option<OsIpcChannel> {
        self.slot
    }

    /// True while the slot holds a sending endpoint.
    pub open spec fn holds_sender(&self) -> bool {
        self.wrapped() matches Some(OsIpcChannel::Sender(_))
    }

    /// True while the slot holds a receiving endpoint.
    pub open spec fn holds_receiver(&self) -> bool {
        self.wrapped() matches Some(OsIpcChannel::Receiver(_))
    }

    pub(crate) fn new(channel: OsIpcChannel) -> (r: OsOpaqueIpcChannel)
        ensures
            r.wrapped() == Some(channel),
    {
        OsOpaqueIpcChannel { slot: Some(channel) }
    }

    /// Resolves the direction without moving the endpoint out: true exactly
    /// when the slot still holds a sending endpoint, as `to_sender` demands.
    pub fn is_sender(&self) -> (r: bool)
        ensures
            r == self.holds_sender(),
    {
        match &self.slot {
            Some(OsIpcChannel::Sender(_)) => true,
            _ => false,
        }
    }

    /// Resolves the direction without moving the endpoint out: true exactly
    /// when the slot still holds a receiving endpoint, as `to_receiver`
    /// demands.
    pub fn is_receiver(&self) -> (r: bool)
        ensures
            r == self.holds_receiver(),
    {
        match &self.slot {
            Some(OsIpcChannel::Receiver(_)) => true,
            _ => false,
        }
    }

    /// Moves the wrapped receiver out; the slot becomes permanently empty.
    pub fn to_receiver(&mut self) -> (r: OsIpcReceiver)
        requires
            old(self).holds_receiver(),
        ensures
            final(self).wrapped() is None,
            old(self).wrapped() == Some(OsIpcChannel::Receiver(r)),
    {
        let mut slot: Option<OsIpcChannel> = None;
        core::mem::swap(&mut self.slot, &mut slot);
        match slot {
            Some(OsIpcChannel::Receiver(r)) => r,
            _ => vstd::pervasive::unreached(),
        }
    }

    /// Moves the wrapped sender out; the slot becomes permanently empty.
    pub fn to_sender(&mut self) -> (r: OsIpcSender)
        requires
            old(self).holds_sender(),
        ensures
            final(self).wrapped() is None,
            old(self).wrapped() == Some(OsIpcChannel::Sender(r)),
    {
        let mut slot: Option<OsIpcChannel> = None;
        core::mem::swap(&mut self.slot, &mut slot);
        match slot {
            Some(OsIpcChannel::Sender(s)) => s,
            _ => vstd::pervasive::unreached(),
        }
    }
}

} // verus!
