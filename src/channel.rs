use vstd::prelude::*;

use tokio::sync::mpsc::{Receiver, Sender};

verus! {

/// The largest capacity a bounded channel accepts (the permit limit of the
/// channel's semaphore).
pub const MAX_MAILBOX_CAPACITY: usize = usize::MAX >> 3;

#[verifier::external_type_specification]
#[verifier::external_body]
#[verifier::reject_recursive_types(T)]
pub struct ExSender<T>(Sender<T>);

#[verifier::external_type_specification]
#[verifier::external_body]
#[verifier::reject_recursive_types(T)]
pub struct ExReceiver<T>(Receiver<T>);

/// Relies on tokio::sync::mpsc::channel: it builds a bounded channel and
/// panics when the capacity is zero or above the semaphore's permit limit.
pub assume_specification<T>[ tokio::sync::mpsc::channel::<T> ](buffer: usize) -> (Sender<T>, Receiver<T>)
    requires
        0 < buffer <= MAX_MAILBOX_CAPACITY,
;

} // verus!
