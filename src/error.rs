use vstd::prelude::*;

verus! {

/// The one failure a sender can observe.
#[derive(Debug, Clone, Copy, PartialEq, Eq, Structural)]
pub enum Error {
    /// No live pillar is registered for the message's type, or the pillar
    /// registered for it has stopped receiving.
    NoReceiver,
}

} // verus!
