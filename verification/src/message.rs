use std::fmt::Debug;
use vstd::prelude::*;

verus! {

/// Anything that can be sent to an actor: debuggable, clonable, sendable
/// across threads and owning all of its data.
pub trait Message: Debug + Clone + Send + 'static {

}

impl<T: Debug + Clone + Send + 'static> Message for T {

}

/// Stands in for the handle on the actor that sent a message. It carries
/// only the sender's path in the actor tree; the actor machinery that a
/// full handle would reach is not part of this crate.
#[derive(Debug, Clone)]
pub struct BasicActorRef {
    pub path: String,
}

/// Wraps message and sender
#[derive(Debug, Clone)]
pub struct Envelope<T: Message> {
    pub sender: Option<BasicActorRef>,
    pub msg: T,
}

} // verus!
