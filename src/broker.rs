use vstd::prelude::*;

use std::collections::HashMap;
use tokio::sync::mpsc::Sender;

use crate::error::Error;
use crate::mailbox::Mailbox;
use crate::message::{erased, lemma_erase_round_trip, Envelope, Message, MessageType, Pillar};

pub use crate::channel::MAX_MAILBOX_CAPACITY;

verus! {

broadcast use vstd::std_specs::hash::group_hash_axioms;

/// How many envelopes a mailbox holds before senders to it wait.
pub const MAILBOX_CAPACITY: usize = 100;

/// The sending side of one mailbox, with the serial number of its
/// registration.
#[verifier::reject_recursive_types(M)]
struct Route<M> {
    mailbox: u64,
    sender: Sender<Envelope<M>>,
}

/// The router: it maps each kind of message to the mailbox registered for it.
/// Registering a second pillar for a kind replaces the first in the map; the
/// earlier mailbox then gets no new envelopes.
#[verifier::reject_recursive_types(M)]
pub struct Broker<M> {
    pillars: HashMap<u64, Route<M>>,
    capacity: usize,
    registered: u64,
}

/// What a sender learns from the channel's answer: `None` means the envelope
/// was queued, `Some` that the mailbox had stopped and the envelope came back.
pub fn delivery_result<M>(returned: Option<Envelope<M>>) -> (r: Result<(), Error>)
    ensures
        r is Ok <==> returned is None,
        r is Err ==> r == Err::<(), Error>(Error::NoReceiver),
{
    match returned {
        None => Ok(()),
        Some(_) => Err(Error::NoReceiver),
    }
}

impl<M: Message> Broker<M> {
    /// The routing table: each kind of message (by its identity) to the serial
    /// number of the registration that receives it.
    pub closed spec fn routes(&self) -> Map<u64, u64> {
        self.pillars@.map_values(|r: Route<M>| r.mailbox)
    }

    /// The sending side of the mailbox that each kind routes to.
    pub closed spec fn senders(&self) -> Map<u64, Sender<Envelope<M>>> {
        self.pillars@.map_values(|r: Route<M>| r.sender)
    }

    /// How many pillars were ever registered; registrations are numbered
    /// from zero in order.
    pub closed spec fn registered(&self) -> u64 {
        self.registered
    }

    /// The capacity that every new mailbox gets.
    pub closed spec fn capacity(&self) -> usize {
        self.capacity
    }

    /// The routing table is finite and has a sender for each route; every
    /// route names a registration already made, and no two kinds share one;
    /// every mailbox capacity is one the channel accepts.
    pub open spec fn wf(&self) -> bool {
        &&& 0 < self.capacity() <= MAX_MAILBOX_CAPACITY
        &&& self.routes().dom().finite()
        &&& self.senders().dom() == self.routes().dom()
        &&& forall|k: u64| #[trigger]
            self.routes().contains_key(k) ==> self.routes()[k] < self.registered()
        &&& forall|k1: u64, k2: u64|
            #![trigger self.routes()[k1], self.routes()[k2]]
            self.routes().contains_key(k1) && self.routes().contains_key(k2) && k1 != k2
                ==> self.routes()[k1] != self.routes()[k2]
    }

    /// `next` is this broker after one registration for `kind`: that kind now
    /// routes to the new registration, and every other route, with its
    /// sender, is kept.
    pub open spec fn registration_step(&self, next: Self, kind: MessageType) -> bool {
        &&& next.routes() == self.routes().insert(kind.id, self.registered())
        &&& next.senders().contains_key(kind.id)
        &&& forall|k: u64| #![trigger next.senders()[k]]
            k != kind.id && self.senders().contains_key(k) ==> next.senders().contains_key(k)
                && next.senders()[k] == self.senders()[k]
        &&& next.registered() == self.registered() + 1
        &&& next.capacity() == self.capacity()
    }

    /// A broker with no pillars, whose mailboxes hold `MAILBOX_CAPACITY`
    /// envelopes each.
    pub fn new() -> (r: Self)
        ensures
            r.wf(),
            r.routes() == Map::<u64, u64>::empty(),
            r.registered() == 0,
            r.capacity() == MAILBOX_CAPACITY,
    {
        proof {
            let top: usize = usize::MAX;
            assert(top >= 0xffff_ffff);
            assert(top >= 0xffff_ffff ==> 100 <= top >> 3) by (bit_vector);
        }
        Self::with_capacity(MAILBOX_CAPACITY)
    }

    /// A broker with no pillars, whose mailboxes hold `capacity` envelopes
    /// each.
    pub fn with_capacity(capacity: usize) -> (r: Self)
        requires
            0 < capacity <= MAX_MAILBOX_CAPACITY,
        ensures
            r.wf(),
            r.routes() == Map::<u64, u64>::empty(),
            r.registered() == 0,
            r.capacity() == capacity,
    {
        let r = Broker { pillars: HashMap::new(), capacity, registered: 0 };
        assert(r.routes() =~= Map::<u64, u64>::empty());
        assert(r.senders().dom() =~= r.routes().dom());
        r
    }

    /// How many pillars were ever registered.
    pub fn registrations(&self) -> (r: u64)
        ensures
            r == self.registered(),
    {
        self.registered
    }

    /// Whether a pillar is registered for `kind`.
    pub fn has_receiver(&self, kind: MessageType) -> (r: bool)
        ensures
            r == self.routes().contains_key(kind.id),
    {
        self.pillars.contains_key(&kind.id)
    }

    /// Registers `pillar` for the kind it declares and returns its mailbox,
    /// which the caller runs. A pillar registered earlier for the same kind
    /// is replaced: its mailbox stays alive but is no longer routed to.
    pub fn add_pillar<P: Pillar<Message = M>>(&mut self, pillar: P) -> (r: Mailbox<P>)
        requires
            old(self).wf(),
            old(self).registered() < u64::MAX,
        ensures
            final(self).wf(),
            old(self).registration_step(*final(self), pillar.subscription()),
            r.serial() == old(self).registered(),
            r.kind() == pillar.subscription(),
            r.pillar() == pillar,
            !r.terminated(),
    {
        let (sender, receiver) = tokio::sync::mpsc::channel(self.capacity);
        let kind = pillar.message_type();
        let serial = self.registered;
        let mailbox = Mailbox::new(kind, serial, receiver, pillar);
        let _ = self.pillars.insert(kind.id, Route { mailbox: serial, sender });
        self.registered = serial + 1;
        proof {
            assert(self.routes() =~= old(self).routes().insert(kind.id, serial));
            assert(self.senders().dom() =~= self.routes().dom());
            assert(self.senders() =~= old(self).senders().insert(kind.id, self.pillars@[kind.id].sender));
        }
        mailbox
    }

    /// Finds the mailbox for the kind recorded in `envelope` and returns its
    /// channel with the envelope, for the caller to send on (waiting while
    /// the mailbox is full). With no pillar registered for the kind the
    /// envelope is dropped, and its message with it.
    pub fn route(&self, envelope: Envelope<M>) -> (r: Result<(&Sender<Envelope<M>>, Envelope<M>), Error>)
        requires
            self.wf(),
        ensures
            r is Err <==> !self.routes().contains_key(envelope.type_id().id),
            r matches Err(e) ==> e == Error::NoReceiver,
            r matches Ok((s, e)) ==> e == envelope && *s == self.senders()[envelope.type_id().id],
    {
        let kind = envelope.message_type();
        match self.pillars.get(&kind.id) {
            None => Err(Error::NoReceiver),
            Some(route) => Ok((&route.sender, envelope)),
        }
    }

    /// Erases `message` and routes it to the pillar registered for its kind.
    pub fn address(&self, message: M) -> (r: Result<(&Sender<Envelope<M>>, Envelope<M>), Error>)
        requires
            self.wf(),
        ensures
            r is Err <==> !self.routes().contains_key(message.kind().id),
            r matches Err(e) ==> e == Error::NoReceiver,
            r matches Ok((s, e)) ==> e == erased(message) && *s == self.senders()[message.kind().id],
    {
        proof {
            lemma_erase_round_trip(message);
        }
        self.route(Envelope::erase(message))
    }
}

/// Registering a pillar for a kind routes that kind to the new registration
/// and keeps every other route. The registration it replaces, if any, is no
/// longer routed to from any kind, and the table grows by one entry exactly
/// when the kind had none.
pub proof fn lemma_registration_replaces_previous<M: Message>(
    before: Broker<M>,
    after: Broker<M>,
    kind: MessageType,
)
    requires
        before.wf(),
        after.wf(),
        before.registration_step(after, kind),
    ensures
        after.routes().contains_key(kind.id),
        after.routes()[kind.id] == before.registered(),
        forall|k: u64| k != kind.id && before.routes().contains_key(k)
            ==> #[trigger] after.routes().contains_key(k) && after.routes()[k] == before.routes()[k],
        before.routes().contains_key(kind.id) ==> forall|k: u64| #[trigger]
            after.routes().contains_key(k) ==> after.routes()[k] != before.routes()[kind.id],
        after.routes().len() == before.routes().len() + if before.routes().contains_key(kind.id) {
            0int
        } else {
            1int
        },
{
    if before.routes().contains_key(kind.id) {
        assert forall|k: u64| #[trigger] after.routes().contains_key(k) implies after.routes()[k]
            != before.routes()[kind.id] by {
            if k != kind.id {
                assert(before.routes().contains_key(k));
                assert(before.routes()[k] != before.routes()[kind.id]);
            }
        }
    }
}

} // verus!
