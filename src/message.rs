use vstd::prelude::*;

use crate::broker::Broker;
use crate::error::Error;
use tokio::sync::mpsc::Sender;

verus! {

/// The identity of a kind of message. Each `Message` implementation chooses
/// the identity of every kind it has; the broker relies on two different kinds
/// never sharing one, which nothing here can check.
#[derive(Debug, Clone, Copy, PartialEq, Eq, Structural, Hash)]
pub struct MessageType {
    pub id: u64,
}

/// A value that can travel through the broker.
pub trait Message: Sized {
    /// What a pillar answers to a message of this kind.
    type Response;

    /// The kind of this message.
    spec fn kind(&self) -> MessageType;

    fn message_type(&self) -> (r: MessageType)
        ensures
            r == self.kind(),
    ;
}

/// A handler registered with the broker for one kind of message. Each pillar
/// runs behind its own mailbox, which hands it messages one at a time.
pub trait Pillar: Sized {
    /// The messages this pillar handles.
    type Message: Message;

    /// What `spawn` reports when the pillar cannot start on its own.
    type Error;

    /// The kind of message this pillar is registered for.
    spec fn subscription(&self) -> MessageType;

    fn message_type(&self) -> (r: MessageType)
        ensures
            r == self.subscription(),
    ;

    /// The messages this pillar has been handed so far, in order. A pillar
    /// that proves its `recv` keeps this log; the default records nothing.
    closed spec fn received(&self) -> Seq<Self::Message> {
        Seq::empty()
    }

    /// Handles one message, taking ownership of it.
    fn recv(&mut self, message: Box<Self::Message>) -> (r: Result<
        <Self::Message as Message>::Response,
        Error,
    >)
        ensures
            final(self).received() == old(self).received().push(*message),
    ;

    /// Starts the pillar by its own means, where it has any. A pillar added to
    /// a broker is run by its mailbox instead.
    fn spawn(self) -> Result<(), Self::Error>;
}

/// Sending for every pillar, written once so that no pillar sends differently.
pub trait PillarExt: Pillar {
    /// Addresses `message` through `broker` to the pillar registered for its
    /// kind: the result is the channel of that pillar's mailbox and the
    /// erased message, for the caller to send on. Delivery is fire-and-forget:
    /// the answer of the receiving pillar is not returned to the sender.
    fn send<'a, M: Message>(&self, broker: &'a Broker<M>, message: M) -> (r: Result<
        (&'a Sender<Envelope<M>>, Envelope<M>),
        Error,
    >)
        requires
            broker.wf(),
        ensures
            r is Err <==> !broker.routes().contains_key(message.kind().id),
            r matches Err(e) ==> e == Error::NoReceiver,
            r matches Ok((s, e)) ==> e == erased(message) && *s == broker.senders()[message.kind().id],
    {
        broker.address(message)
    }
}

impl<P: Pillar> PillarExt for P {
}

/// A message in transit: its kind, and the message itself on the heap.
/// Only `erase` makes one and only `reconstitute` takes it apart, so the
/// payload has exactly one owner at every moment.
pub struct Envelope<M> {
    type_id: MessageType,
    payload: Box<M>,
}

/// The envelope that erasing `message` yields.
pub closed spec fn erased<M: Message>(message: M) -> Envelope<M> {
    Envelope { type_id: message.kind(), payload: Box::new(message) }
}

impl<M: Message> Envelope<M> {
    /// The kind recorded in the envelope.
    pub closed spec fn type_id(&self) -> MessageType {
        self.type_id
    }

    /// The message the envelope carries.
    pub closed spec fn payload(&self) -> M {
        *self.payload
    }

    /// Takes ownership of `message`, moves it to the heap and records its kind.
    pub fn erase(message: M) -> (r: Self)
        ensures
            r == erased(message),
    {
        let type_id = message.message_type();
        Envelope { type_id, payload: Box::new(message) }
    }

    pub fn message_type(&self) -> (r: MessageType)
        ensures
            r == self.type_id(),
    {
        self.type_id
    }

    /// Gives the carried message back to its new owner.
    pub fn reconstitute(self) -> (r: Box<M>)
        ensures
            *r == self.payload(),
    {
        self.payload
    }
}

/// Erasing a message records its kind, and reconstituting the envelope gives
/// back that same message, field for field.
pub proof fn lemma_erase_round_trip<M: Message>(message: M)
    ensures
        erased(message).type_id() == message.kind(),
        erased(message).payload() == message,
{
}

} // verus!
