use vstd::prelude::*;

use tokio::sync::mpsc::Receiver;

use crate::error::Error;
use crate::message::{Envelope, Message, MessageType, Pillar};

verus! {

/// Where a mailbox stands between two envelopes.
#[derive(Debug, Clone, Copy, PartialEq, Eq, Structural)]
pub enum MailboxState {
    /// Waiting for the next envelope.
    Idle,
    /// Every sender is gone and the queue is drained; it never receives again.
    Terminated,
}

/// The receiving end of one registration: a bounded queue of envelopes and
/// the pillar they are handed to, one at a time. Its driver waits on
/// `inbox` and passes what it got to `handle`.
#[verifier::reject_recursive_types(P)]
pub struct Mailbox<P: Pillar> {
    message_type: MessageType,
    serial: u64,
    receiver: Receiver<Envelope<P::Message>>,
    pillar: P,
    terminated: bool,
}

impl<P: Pillar> Mailbox<P> {
    /// The kind of message this mailbox was registered for.
    pub closed spec fn kind(&self) -> MessageType {
        self.message_type
    }

    /// The serial number of the registration that made this mailbox.
    pub closed spec fn serial(&self) -> u64 {
        self.serial
    }

    /// The pillar behind this mailbox.
    pub closed spec fn pillar(&self) -> P {
        self.pillar
    }

    /// The receiving side of the mailbox's channel.
    pub closed spec fn inbound(&self) -> Receiver<Envelope<P::Message>> {
        self.receiver
    }

    /// Whether the mailbox has seen its channel closed and drained.
    pub closed spec fn terminated(&self) -> bool {
        self.terminated
    }

    pub(crate) fn new(
        message_type: MessageType,
        serial: u64,
        receiver: Receiver<Envelope<P::Message>>,
        pillar: P,
    ) -> (r: Self)
        ensures
            r.kind() == message_type,
            r.serial() == serial,
            r.pillar() == pillar,
            r.inbound() == receiver,
            !r.terminated(),
    {
        Mailbox {
            message_type,
            serial,
            receiver,
            pillar,
            terminated: false,
        }
    }

    /// Where the mailbox stands.
    pub fn state(&self) -> (r: MailboxState)
        ensures
            r == MailboxState::Terminated <==> self.terminated(),
    {
        if self.terminated {
            MailboxState::Terminated
        } else {
            MailboxState::Idle
        }
    }

    /// The kind of message this mailbox was registered for.
    pub fn message_type(&self) -> (r: MessageType)
        ensures
            r == self.kind(),
    {
        self.message_type
    }

    /// The serial number of the registration that made this mailbox.
    pub fn registration(&self) -> (r: u64)
        ensures
            r == self.serial(),
    {
        self.serial
    }

    /// The pillar behind this mailbox.
    pub fn handler(&self) -> (r: &P)
        ensures
            *r == self.pillar(),
    {
        &self.pillar
    }

    /// The receiving side of the channel, for the driver to wait on. Nothing
    /// else in the mailbox changes through it.
    pub fn inbox(&mut self) -> (r: &mut Receiver<Envelope<P::Message>>)
        ensures
            *r == old(self).inbound(),
            final(self).inbound() == *final(r),
            final(self).kind() == old(self).kind(),
            final(self).serial() == old(self).serial(),
            final(self).pillar() == old(self).pillar(),
            final(self).terminated() == old(self).terminated(),
    {
        &mut self.receiver
    }

    /// Reconstitutes `envelope` and hands its message to the pillar.
    fn deliver(&mut self, envelope: Envelope<P::Message>) -> (r: Result<
        <P::Message as Message>::Response,
        Error,
    >)
        ensures
            final(self).pillar().received() == old(self).pillar().received().push(
                envelope.payload(),
            ),
            final(self).inbound() == old(self).inbound(),
            final(self).kind() == old(self).kind(),
            final(self).serial() == old(self).serial(),
            final(self).terminated() == old(self).terminated(),
    {
        let message = envelope.reconstitute();
        self.pillar.recv(message)
    }

    /// Acts on what the channel yielded. `Some` is delivered to the pillar
    /// exactly once; the pillar's answer, and its error, end with the message
    /// and the mailbox stays idle. `None` (the channel is closed and drained)
    /// terminates the mailbox for good.
    pub fn handle(&mut self, next: Option<Envelope<P::Message>>) -> (r: MailboxState)
        requires
            !old(self).terminated(),
        ensures
            next is None ==> r == MailboxState::Terminated && final(self).terminated()
                && final(self).pillar() == old(self).pillar(),
            next matches Some(e) ==> r == MailboxState::Idle && !final(self).terminated()
                && final(self).pillar().received() == old(self).pillar().received().push(
                e.payload(),
            ),
            final(self).inbound() == old(self).inbound(),
            final(self).kind() == old(self).kind(),
            final(self).serial() == old(self).serial(),
    {
        match next {
            None => {
                self.terminated = true;
                MailboxState::Terminated
            },
            Some(envelope) => {
                let _ = self.deliver(envelope);
                MailboxState::Idle
            },
        }
    }
}

} // verus!
