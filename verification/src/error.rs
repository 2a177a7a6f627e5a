use vstd::prelude::*;
use vstd::string::StringExecFns;

verus! {

/// What can go wrong when a message is routed to an actor and handled there.
#[derive(Debug)]
pub enum ActorError {
    /// No handler is registered under the message's key.
    HandlerNotFound,
    /// A handler failed; the text is what the handler's error displays as.
    CustomError(String),
    /// The actor's mailbox, or the channel that carries the reply, is closed.
    SendError,
    /// The message is not of the type that the handler or dispatcher expects.
    DispatchError,
    /// The actor could not be started; the text says why.
    SpawnError(String),
    /// The reply is not of the type that the caller asked for.
    DowncastError,
    /// The actor's message loop panicked.
    HandlerPanicked,
}

/// The text that `ActorError::describe` gives.
pub open spec fn actor_error_text(e: ActorError) -> Seq<char> {
    match e {
        ActorError::HandlerNotFound => "Handler not found"@,
        ActorError::CustomError(text) => "Custom error: "@ + text@,
        ActorError::SendError => "Failed to send message"@,
        ActorError::DispatchError => "Failed to dispatch message"@,
        ActorError::SpawnError(text) => "Failed to spawn actor: "@ + text@,
        ActorError::DowncastError => "Failed to downcast response"@,
        ActorError::HandlerPanicked => "Handler panicked"@,
    }
}

impl ActorError {
    /// A human-readable description of the error.
    pub fn describe(&self) -> (r: String)
        ensures
            r@ == actor_error_text(*self),
    {
        match self {
            ActorError::HandlerNotFound => String::from_str("Handler not found"),
            ActorError::CustomError(text) => String::from_str("Custom error: ").concat(text.as_str()),
            ActorError::SendError => String::from_str("Failed to send message"),
            ActorError::DispatchError => String::from_str("Failed to dispatch message"),
            ActorError::SpawnError(text) => String::from_str("Failed to spawn actor: ").concat(text.as_str()),
            ActorError::DowncastError => String::from_str("Failed to downcast response"),
            ActorError::HandlerPanicked => String::from_str("Handler panicked"),
        }
    }
}

/// The error an action returns when it fails; the text is what the
/// underlying error displays as.
#[derive(Debug)]
pub struct ActionError(pub String);

impl ActionError {
    /// The error's text.
    pub fn describe(&self) -> (r: String)
        ensures
            r@ == self.0@,
    {
        self.0.clone()
    }
}

/// An error a handler may return: the library keeps its text in
/// `ActorError::CustomError`.
pub trait ErrorText {
    /// Whether the error displays as `text`.
    spec fn shows_as(&self, text: Seq<char>) -> bool;

    /// The text that the error displays as.
    fn error_text(&self) -> (r: String)
        ensures
            self.shows_as(r@),
    ;
}

impl<T: core::fmt::Display + ?Sized> ErrorText for T {
    open spec fn shows_as(&self, text: Seq<char>) -> bool {
        exists|s: String| s@ == text && #[trigger] vstd::string::to_string_from_display_ensures::<T>(self, s)
    }

    fn error_text(&self) -> (r: String) {
        self.to_string()
    }
}

impl ErrorText for ActorError {
    open spec fn shows_as(&self, text: Seq<char>) -> bool {
        text == actor_error_text(*self)
    }

    fn error_text(&self) -> (r: String) {
        self.describe()
    }
}

impl ErrorText for ActionError {
    open spec fn shows_as(&self, text: Seq<char>) -> bool {
        text == self.0@
    }

    fn error_text(&self) -> (r: String) {
        self.describe()
    }
}

} // verus!
