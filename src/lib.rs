//! An in-process message broker: typed messages are wrapped into envelopes,
//! routed by their message type to the one pillar registered for it, and
//! handed over through a bounded channel to that pillar's mailbox.

mod broker;
mod channel;
mod error;
mod mailbox;
mod message;

pub use broker::{
    delivery_result, lemma_registration_replaces_previous, Broker, MAILBOX_CAPACITY,
    MAX_MAILBOX_CAPACITY,
};
pub use error::Error;
pub use mailbox::{Mailbox, MailboxState};
pub use message::{
    erased, lemma_erase_round_trip, Envelope, Message, MessageType, Pillar, PillarExt,
};
