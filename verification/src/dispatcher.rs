use vstd::prelude::*;
use core::marker::PhantomData;
use crate::error::ActorError;
use crate::key::MessageKey;
use crate::message::{BoxedMessage, BoxedResponse, MessageDowncast};
use crate::registry::HandlerRegistry;

verus! {

/// A key as `message_key` gives it, by its name.
pub open spec fn key_result_view(r: Result<MessageKey, ActorError>) -> Result<Seq<char>, ActorError> {
    match r {
        Ok(k) => Ok(k@),
        Err(e) => Err(e),
    }
}

/// Decides under which key a message is handled, and prepares messages and
/// responses on their way to and from the actor. Each method's answer is one
/// that the matching spec function admits; an implementation says which
/// answers those are, and one that says nothing admits every answer.
pub trait Dispatcher {
    /// Whether `message_key` may answer `r` (a key by its name, or an error)
    /// for `message`.
    open spec fn keys(&self, message: BoxedMessage, r: Result<Seq<char>, ActorError>) -> bool {
        true
    }

    /// Whether `wrap` may answer `r` for `message` and the key `key`.
    open spec fn wraps(&self, message: BoxedMessage, key: Seq<char>, r: Result<BoxedMessage, ActorError>) -> bool {
        true
    }

    /// Whether `unwrap` may answer `r` for `response` and the key `key`.
    open spec fn unwraps(&self, response: BoxedResponse, key: Seq<char>, r: Result<BoxedResponse, ActorError>) -> bool {
        true
    }

    /// The key of the handler that is to receive `message`.
    fn message_key(&self, message: &BoxedMessage) -> (r: Result<MessageKey, ActorError>)
        ensures
            self.keys(*message, key_result_view(r)),
    ;

    /// Prepares `message` to be handled under `key`.
    fn wrap(&self, message: BoxedMessage, key: MessageKey) -> (r: Result<BoxedMessage, ActorError>)
        ensures
            self.wraps(message, key@, r),
    ;

    /// Prepares the response to a message that was handled under `key`.
    fn unwrap(&self, message: BoxedResponse, key: MessageKey) -> (r: Result<BoxedResponse, ActorError>)
        ensures
            self.unwraps(message, key@, r),
    ;
}

/// A dispatcher that sends one kind of message, actions of type `A`, to the
/// handler under one key of the actor `actor`.
pub struct ActionDispatcher<A, R> {
    key: MessageKey,
    actor: R,
    action: PhantomData<A>,
}

impl<A: 'static, R> ActionDispatcher<A, R> {
    /// The dispatcher's key.
    pub closed spec fn key_view(&self) -> Seq<char> {
        self.key@
    }

    /// The actor the dispatcher sends to.
    pub closed spec fn actor_view(&self) -> R {
        self.actor
    }

    /// A dispatcher for the handler under `key` of `actor`.
    pub fn new(key: MessageKey, actor: R) -> (r: Self)
        ensures
            r.key_view() == key@,
            r.actor_view() == actor,
    {
        ActionDispatcher { key, actor, action: PhantomData }
    }

    /// Registers `handler` under `key` among `handlers` and gives the
    /// dispatcher that sends actions to that key of `actor`, so that the
    /// handler and the dispatcher agree on the key.
    pub fn register_in<H>(handlers: &mut HandlerRegistry<H>, key: MessageKey, handler: H, actor: R) -> (r: Self)
        ensures
            final(handlers)@ == old(handlers)@.insert(key@, handler),
            r.key_view() == key@,
            r.actor_view() == actor,
    {
        handlers.insert(key.clone(), handler);
        ActionDispatcher::new(key, actor)
    }

    /// The dispatcher's key.
    pub fn key(&self) -> (r: &MessageKey)
        ensures
            r@ == self.key_view(),
    {
        &self.key
    }

    /// The actor the dispatcher sends to.
    pub fn actor(&self) -> (r: &R)
        ensures
            *r == self.actor_view(),
    {
        &self.actor
    }

    /// The dispatcher's answer to `message_key` when the message is an
    /// action (`is_action`) and when it is not.
    pub fn key_for(&self, is_action: bool) -> (r: Result<MessageKey, ActorError>)
        ensures
            is_action ==> (r matches Ok(k) && k@ == self.key_view()),
            !is_action ==> r matches Err(ActorError::HandlerNotFound),
    {
        if is_action {
            Ok(self.key.clone())
        } else {
            Err(ActorError::HandlerNotFound)
        }
    }
}

impl<A: 'static, R> Dispatcher for ActionDispatcher<A, R> {
    /// The dispatcher's own key, or `HandlerNotFound` for a message that is
    /// not an action.
    open spec fn keys(&self, message: BoxedMessage, r: Result<Seq<char>, ActorError>) -> bool {
        match r {
            Ok(k) => k == self.key_view(),
            Err(e) => e is HandlerNotFound,
        }
    }

    /// The message itself under the dispatcher's key, `HandlerNotFound`
    /// under any other.
    open spec fn wraps(&self, message: BoxedMessage, key: Seq<char>, r: Result<BoxedMessage, ActorError>) -> bool {
        if key == self.key_view() {
            r == Ok::<BoxedMessage, ActorError>(message)
        } else {
            r matches Err(ActorError::HandlerNotFound)
        }
    }

    /// The response itself under the dispatcher's key, `HandlerNotFound`
    /// under any other.
    open spec fn unwraps(&self, response: BoxedResponse, key: Seq<char>, r: Result<BoxedResponse, ActorError>) -> bool {
        if key == self.key_view() {
            r == Ok::<BoxedResponse, ActorError>(response)
        } else {
            r matches Err(ActorError::HandlerNotFound)
        }
    }

    fn message_key(&self, message: &BoxedMessage) -> (r: Result<MessageKey, ActorError>)
        ensures
            r matches Ok(k) ==> k@ == self.key_view(),
            r matches Err(e) ==> e is HandlerNotFound,
    {
        self.key_for(message.is::<A>())
    }

    fn wrap(&self, message: BoxedMessage, key: MessageKey) -> (r: Result<BoxedMessage, ActorError>)
        ensures
            key@ == self.key_view() ==> r == Ok::<BoxedMessage, ActorError>(message),
            key@ != self.key_view() ==> r matches Err(ActorError::HandlerNotFound),
    {
        if key == self.key {
            Ok(message)
        } else {
            Err(ActorError::HandlerNotFound)
        }
    }

    fn unwrap(&self, message: BoxedResponse, key: MessageKey) -> (r: Result<BoxedResponse, ActorError>)
        ensures
            key@ == self.key_view() ==> r == Ok::<BoxedResponse, ActorError>(message),
            key@ != self.key_view() ==> r matches Err(ActorError::HandlerNotFound),
    {
        if key == self.key {
            Ok(message)
        } else {
            Err(ActorError::HandlerNotFound)
        }
    }
}

} // verus!
