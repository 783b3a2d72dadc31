use crate::message::Message;
use std::any::Any;
use vstd::prelude::*;

verus! {

/// A message value whose concrete type has been erased.
///
/// The value sits in a box of `dyn Any + Send`, opaque to the verifier;
/// the methods below are the only ways in and out of it. No contract says
/// of which type the held value is, or which value it is.
#[verifier::external_body]
pub struct Payload {
    value: Box<dyn Any + Send>,
}

/// Erases the type of `v` by boxing it as `dyn Any + Send`
/// (`Box::new` followed by an unsizing coercion). The payload holds `v`;
/// no contract says so.
#[verifier::external_body]
fn erase<T: Send + 'static>(v: T) -> Payload {
    Payload { value: Box::new(v) }
}

/// Tells whether the payload holds a `T`, through `<dyn Any + Send>::is`.
/// The answer depends on the erased type and is not stated.
#[verifier::external_body]
fn payload_is<T: 'static>(p: &Payload) -> bool {
    p.value.is::<T>()
}

/// Moves the value out of the payload if it is a `T`, through
/// `Box::<dyn Any + Send>::downcast`. That function hands back the very box
/// it was given when the types differ, and so this one hands back the same
/// payload in `Err`. Which of the two comes back depends on the erased
/// type; no contract says which.
#[verifier::external_body]
fn payload_into<T: 'static>(p: Payload) -> (r: Result<T, Payload>)
    ensures
        r matches Err(q) ==> q == p,
{
    match p.value.downcast::<T>() {
        Ok(b) => Ok(*b),
        Err(b) => Err(Payload { value: b }),
    }
}

/// Borrows the value in the payload if it is a `T`, through
/// `<dyn Any + Send>::downcast_ref`. Whether a value comes back depends on
/// the erased type and is not stated.
#[verifier::external_body]
fn payload_ref<T: 'static>(p: &Payload) -> Option<&T> {
    p.value.downcast_ref::<T>()
}

impl Payload {
    /// Boxes `v`, forgetting its type.
    pub fn new<T: Send + 'static>(v: T) -> Payload {
        erase(v)
    }

    /// Whether the payload holds a value of type `T`.
    pub fn is<T: 'static>(&self) -> bool {
        payload_is::<T>(self)
    }

    /// The held value if it is a `T`; else the payload itself, untouched.
    pub fn downcast<T: 'static>(self) -> (r: Result<T, Payload>)
        ensures
            r matches Err(q) ==> q == self,
    {
        payload_into::<T>(self)
    }

    /// A reference to the held value if it is a `T`.
    pub fn downcast_ref<T: 'static>(&self) -> Option<&T> {
        payload_ref::<T>(self)
    }
}

/// What a move out of a payload found: the value, or nothing when the payload
/// held another type.
fn found_moved<T>(r: Result<T, Payload>) -> (found: Option<T>)
    ensures
        match r {
            Ok(v) => found == Some(v),
            Err(_) => found is None,
        },
{
    match r {
        Ok(v) => Some(v),
        Err(_) => None,
    }
}

/// What a look into a payload found: a clone of the value, or nothing when
/// the payload held another type.
fn found_cloned<T: Clone>(r: Option<&T>) -> (found: Option<T>)
    ensures
        match r {
            Some(v) => found matches Some(c) && cloned(*v, c),
            None => found is None,
        },
{
    match r {
        Some(v) => Some(v.clone()),
        None => None,
    }
}

/// The error of asking an `AnyMessage` for a value it does not hold.
pub struct DowncastAnyMessageError;

impl DowncastAnyMessageError {
    /// Settles a request for a value of some type, given what looking for
    /// it found: the value if one was found, else this error.
    pub fn settle<T>(found: Option<T>) -> (r: Result<T, DowncastAnyMessageError>)
        ensures
            match found {
                Some(v) => r == Ok::<T, DowncastAnyMessageError>(v),
                None => r is Err,
            },
    {
        match found {
            Some(v) => Ok(v),
            None => Err(DowncastAnyMessageError),
        }
    }
}

/// A message of a type known only to its sender and its receiver.
///
/// A one-time message gives its value up to the first `take`; any other
/// message keeps it and hands out clones.
///
/// `AnyMessage` implements neither `Clone` nor `Debug`, and so is not itself
/// a `Message` (an `Envelope<AnyMessage>` does not type-check). A message
/// whose value may be moved out once cannot be duplicated, and no code can
/// ask to. Its debug text is given by `debug_name`.
pub struct AnyMessage {
    pub one_time: bool,
    pub msg: Option<Payload>,
}

impl AnyMessage {
    /// Whether a value is still held.
    pub open spec fn holds_value(self) -> bool {
        self.msg is Some
    }

    /// The message as it is after a `take`: a one-time message has lost its
    /// value, any other is as it was.
    pub open spec fn after_take(self) -> AnyMessage {
        if self.one_time {
            AnyMessage { one_time: true, msg: None }
        } else {
            self
        }
    }

    pub fn new<T: Message>(msg: T, one_time: bool) -> (m: Self)
        ensures
            m.one_time == one_time,
            m.holds_value(),
    {
        Self { one_time, msg: Some(erase(msg)) }
    }

    pub fn take<T: Message>(&mut self) -> (r: Result<T, DowncastAnyMessageError>)
        ensures
            *final(self) == old(self).after_take(),
            !old(self).holds_value() ==> r is Err,
    {
        if self.one_time {
            let found = match self.msg.take() {
                Some(m) => found_moved(payload_into::<T>(m)),
                None => None,
            };
            DowncastAnyMessageError::settle(found)
        } else {
            let found = match &self.msg {
                Some(m) => found_cloned(payload_ref::<T>(m)),
                None => None,
            };
            DowncastAnyMessageError::settle(found)
        }
    }

    /// The name under which the message shows itself when debugged; its
    /// contents are never shown.
    pub fn debug_name(&self) -> (s: String)
        ensures
            s@ == "AnyMessage"@,
    {
        "AnyMessage".to_owned()
    }
}

/// A one-time message has no value left after a `take`, whatever type was
/// asked for, and so every later `take` fails.
pub proof fn lemma_one_time_take_consumes(m: AnyMessage)
    requires
        m.one_time,
    ensures
        !m.after_take().holds_value(),
{
}

/// A message that is not one-time is left exactly as it was by a `take`, so
/// it can be taken any number of times.
pub proof fn lemma_shared_take_keeps(m: AnyMessage)
    requires
        !m.one_time,
    ensures
        m.after_take() == m,
{
}

/// A `take` never changes whether a message is one-time, and taking twice
/// leaves a message as taking once does.
pub proof fn lemma_take_settles(m: AnyMessage)
    ensures
        m.after_take().one_time == m.one_time,
        m.after_take().after_take() == m.after_take(),
        m.after_take().holds_value() ==> m.holds_value(),
{
}

} // verus!
