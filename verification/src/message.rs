use vstd::prelude::*;
use crate::erased::{ErasedValue, erase_value, holds, peek_value, take_value};

verus! {

/// A value that can travel to an actor as the payload of a notification or a
/// request: anything that can be sent to another thread and lives on its own.
pub trait Message: Send + 'static {
    /// Boxes the message, forgetting its concrete type; the box holds the
    /// message.
    fn erase_message(self) -> (r: ErasedValue) where Self: Sized
        ensures
            holds(r, self),
    ;
}

impl<T: Send + 'static> Message for T {
    fn erase_message(self) -> ErasedValue {
        erase_value(self)
    }
}

/// A value that a handler can give back as the answer to a request.
pub trait Response: Send + 'static {
    /// Boxes the response, forgetting its concrete type; the box holds the
    /// response.
    fn erase_response(self) -> (r: ErasedValue) where Self: Sized
        ensures
            holds(r, self),
    ;
}

impl<T: Send + 'static> Response for T {
    fn erase_response(self) -> ErasedValue {
        erase_value(self)
    }
}

/// A message whose concrete type is known only at run time.
pub struct BoxedMessage {
    inner: ErasedValue,
}

impl BoxedMessage {
    /// The message holds `v`, a value of type `T`.
    pub closed spec fn holds<T: 'static>(self, v: T) -> bool {
        holds(self.inner, v)
    }

    /// Boxes `value`: the message holds `value`.
    pub fn new<T: Message>(value: T) -> (r: Self)
        ensures
            r.holds(value),
    {
        BoxedMessage { inner: value.erase_message() }
    }

    /// The boxed value, when it is a `T`: a message that holds `v` gives
    /// `Some(&v)`.
    pub fn downcast<T: 'static>(&self) -> (r: Option<&T>)
        ensures
            forall|v: T| self.holds(v) ==> r == Some(&v),
    {
        peek_value::<T>(&self.inner)
    }
}

/// Asking a type-erased message for its concrete type.
pub trait MessageDowncast: Sized {
    /// The message, when it is a `T`.
    fn downcast_ref<T: 'static>(&self) -> Option<&T>;

    /// The message itself, when it is a `T`; otherwise the message, unchanged.
    fn downcast<T: 'static>(self) -> (r: Result<T, Self>)
        ensures
            r matches Err(back) ==> back == self,
    ;

    /// Whether the message is a `T`.
    fn is<T: 'static>(&self) -> bool;
}

impl MessageDowncast for BoxedMessage {
    fn downcast_ref<T: 'static>(&self) -> (r: Option<&T>)
        ensures
            forall|v: T| self.holds(v) ==> r == Some(&v),
    {
        peek_value::<T>(&self.inner)
    }

    fn downcast<T: 'static>(self) -> (r: Result<T, Self>)
        ensures
            forall|v: T| self.holds(v) ==> r == Ok::<T, Self>(v),
    {
        let taken = take_value::<T>(self.inner);
        match taken {
            Ok(value) => Ok(value),
            Err(inner) => Err(BoxedMessage { inner }),
        }
    }

    fn is<T: 'static>(&self) -> (r: bool)
        ensures
            (exists|v: T| self.holds(v)) ==> r,
    {
        peek_value::<T>(&self.inner).is_some()
    }
}

/// A response whose concrete type is known only at run time.
pub struct BoxedResponse {
    inner: ErasedValue,
}

impl BoxedResponse {
    /// The response holds `v`, a value of type `T`.
    pub closed spec fn holds<T: 'static>(self, v: T) -> bool {
        holds(self.inner, v)
    }

    /// Boxes `value`: the response holds `value`.
    pub fn new<T: Response>(value: T) -> (r: Self)
        ensures
            r.holds(value),
    {
        BoxedResponse { inner: value.erase_response() }
    }
}

/// Asking a type-erased response for its concrete type.
pub trait ResponseDowncast: Sized {
    /// The response, when it is a `T`.
    fn downcast_ref<T: 'static>(&self) -> Option<&T>;

    /// The response itself, when it is a `T`; otherwise the response,
    /// unchanged.
    fn downcast<T: 'static>(self) -> (r: Result<T, Self>)
        ensures
            r matches Err(back) ==> back == self,
    ;

    /// Whether the response is a `T`.
    fn is<T: 'static>(&self) -> bool;
}

impl ResponseDowncast for BoxedResponse {
    fn downcast_ref<T: 'static>(&self) -> (r: Option<&T>)
        ensures
            forall|v: T| self.holds(v) ==> r == Some(&v),
    {
        peek_value::<T>(&self.inner)
    }

    fn downcast<T: 'static>(self) -> (r: Result<T, Self>)
        ensures
            forall|v: T| self.holds(v) ==> r == Ok::<T, Self>(v),
    {
        let taken = take_value::<T>(self.inner);
        match taken {
            Ok(value) => Ok(value),
            Err(inner) => Err(BoxedResponse { inner }),
        }
    }

    fn is<T: 'static>(&self) -> (r: bool)
        ensures
            (exists|v: T| self.holds(v)) ==> r,
    {
        peek_value::<T>(&self.inner).is_some()
    }
}

} // verus!
