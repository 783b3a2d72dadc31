//! Messages as they travel between actors: the `Message` bound, the
//! `Envelope` that pairs a message with its sender, and the type-erased
//! `AnyMessage` that can be taken back out as a concrete type.

pub mod any_message;
pub mod message;

pub use any_message::{AnyMessage, DowncastAnyMessageError, Payload};
pub use message::{BasicActorRef, Envelope, Message};
