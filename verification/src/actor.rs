use vstd::prelude::*;
use vstd::string::StringExecFns;
use futures::channel::mpsc::{UnboundedReceiver, UnboundedSender};
use futures::channel::oneshot::{Receiver, Sender};
use futures::channel::mpsc::TrySendError;
use crate::channel::{answers_to, clone_sender, feeds, is_connected_to, open_channel, reply_channel, reply_is_connected, send_message, sent};
use crate::dispatcher::Dispatcher;
use crate::error::ActorError;
use crate::key::MessageKey;
use crate::message::{BoxedMessage, BoxedResponse, ResponseDowncast};
use crate::registry::HandlerRegistry;

verus! {

/// What travels through an actor's mailbox: a notification, which expects no
/// answer, or a request, whose answer goes back through the one-shot sender.
pub enum ActorMessage {
    Notification(MessageKey, BoxedMessage),
    Request(MessageKey, BoxedMessage, Sender<Reply>),
}

/// What `<str as Debug>::fmt` writes for a string with the characters `s`:
/// the string in double quotes, with quotes, backslashes and the characters
/// that are not printable escaped.
pub uninterp spec fn str_debug(s: Seq<char>) -> Seq<char>;

/// `<str as Debug>::fmt`, through `format!("{:?}", ..)`: the quoted and
/// escaped form of `s`, named `str_debug` because it takes Unicode tables to
/// state.
#[verifier::external_body]
fn debug_quoted(s: &str) -> (r: String)
    ensures
        r@ == str_debug(s@),
{
    format!("{:?}", s)
}

/// The text that `ActorMessage::describe` gives for a message with key `key`:
/// the kind and the key as `Debug` shows them.
pub open spec fn actor_message_text(is_request: bool, key: Seq<char>) -> Seq<char> {
    if is_request {
        "Request { key: MessageKey("@ + str_debug(key) + "), sender: \"Sender\" }"@
    } else {
        "Notification { key: MessageKey("@ + str_debug(key) + ") }"@
    }
}

impl ActorMessage {
    /// The key of the handler the message is meant for.
    pub open spec fn key_view(self) -> Seq<char> {
        match self {
            ActorMessage::Notification(k, _) => k@,
            ActorMessage::Request(k, _, _) => k@,
        }
    }

    /// The key of the handler the message is meant for.
    pub fn key(&self) -> (r: &MessageKey)
        ensures
            r@ == self.key_view(),
    {
        match self {
            ActorMessage::Notification(k, _) => k,
            ActorMessage::Request(k, _, _) => k,
        }
    }

    /// A description of the message that shows its kind and key but not its
    /// payload.
    pub fn describe(&self) -> (r: String)
        ensures
            r@ == actor_message_text(self is Request, self.key_view()),
    {
        match self {
            ActorMessage::Notification(k, _) => String::from_str("Notification { key: MessageKey(")
                .concat(debug_quoted(k.as_str()).as_str()).concat(") }"),
            ActorMessage::Request(k, _, _) => String::from_str("Request { key: MessageKey(")
                .concat(debug_quoted(k.as_str()).as_str()).concat("), sender: \"Sender\" }"),
        }
    }
}

/// The answer to a request: the handler's response or why there is none.
pub type Reply = Result<BoxedResponse, ActorError>;

/// The sending half of an actor's mailbox.
pub struct Mailbox {
    sender: UnboundedSender<ActorMessage>,
}

/// A request that was posted and whose answer is still to come: the key it
/// was sent under and the channel its answer arrives on.
pub struct PendingReply {
    pub key: MessageKey,
    pub receiver: Receiver<Reply>,
}

impl PendingReply {
    /// Whether what `sender` sends arrives as this request's answer.
    pub fn awaits(&self, sender: &Sender<Reply>) -> (r: bool)
        ensures
            r == answers_to(*sender, self.receiver),
    {
        reply_is_connected(sender, &self.receiver)
    }
}

/// `m` is the notification that carries `message`: under the key that `d`
/// gives it and in the form that `d` gives it under that key.
pub open spec fn notifies<D: Dispatcher>(d: D, message: BoxedMessage, m: ActorMessage) -> bool {
    m matches ActorMessage::Notification(k, w) && dispatched(d, message, k@, w)
}

/// `m` is a request that carries `message` under the key `key`, which `d`
/// gives it, in the form that `d` gives it under that key, and whose answer
/// arrives at `receiver`.
pub open spec fn requests<D: Dispatcher>(d: D, message: BoxedMessage, key: Seq<char>, receiver: Receiver<Reply>, m: ActorMessage) -> bool {
    m matches ActorMessage::Request(k, w, s) && k@ == key && dispatched(d, message, key, w) && answers_to(s, receiver)
}

impl Mailbox {
    /// The messages that this handle has put into the mailbox, oldest first.
    pub closed spec fn queued(&self) -> Seq<ActorMessage> {
        sent(self.sender)
    }

    /// Whether what this handle posts is read from `receiver`.
    pub closed spec fn feeds_into(&self, receiver: UnboundedReceiver<ActorMessage>) -> bool {
        feeds(self.sender, receiver)
    }

    /// A new mailbox, which has queued nothing yet, and the receiving end
    /// that the actor reads it from.
    pub fn open() -> (r: (Mailbox, UnboundedReceiver<ActorMessage>))
        ensures
            r.0.queued() == Seq::<ActorMessage>::empty(),
            r.0.feeds_into(r.1),
    {
        let (sender, receiver) = open_channel();
        (Mailbox { sender }, receiver)
    }

    /// Another handle on the same mailbox, which has queued nothing yet.
    pub fn clone_handle(&self) -> (r: Mailbox)
        ensures
            r.queued() == Seq::<ActorMessage>::empty(),
            forall|rx: UnboundedReceiver<ActorMessage>| #[trigger] r.feeds_into(rx) == self.feeds_into(rx),
    {
        Mailbox { sender: clone_sender(&self.sender) }
    }

    /// Whether what this handle posts is read from `receiver`.
    pub fn delivers_to(&self, receiver: &UnboundedReceiver<ActorMessage>) -> (r: bool)
        ensures
            r == self.feeds_into(*receiver),
    {
        is_connected_to(&self.sender, receiver)
    }

    /// Puts `message` into the mailbox. On success it is the last message
    /// this handle has queued; the failure, as `send_outcome` gives it, is
    /// `SendError`, when the actor has stopped reading, and queues nothing.
    pub fn post(&mut self, message: ActorMessage) -> (r: Result<(), ActorError>)
        ensures
            r is Ok ==> final(self).queued() == old(self).queued().push(message),
            r is Err ==> final(self).queued() == old(self).queued(),
            r matches Err(e) ==> e is SendError,
            forall|rx: UnboundedReceiver<ActorMessage>| #[trigger] final(self).feeds_into(rx) == old(self).feeds_into(rx),
    {
        send_outcome(send_message(&mut self.sender, message))
    }

    /// Sends `message` as a notification, under the key and in the form that
    /// `dispatcher` gives it; no answer is expected. On success exactly that
    /// notification was queued. It fails with the dispatcher's error, and
    /// then nothing was sent, or with `SendError` when the actor no longer
    /// reads its mailbox.
    pub fn tell<D: Dispatcher>(&mut self, dispatcher: &D, message: BoxedMessage) -> (r: Result<(), ActorError>)
        ensures
            r is Ok ==> exists|m: ActorMessage| #[trigger] notifies(*dispatcher, message, m)
                && final(self).queued() == old(self).queued().push(m),
            r is Err ==> final(self).queued() == old(self).queued(),
            r matches Err(e) ==> dispatch_failure(*dispatcher, message, e) || (e is SendError
                && exists|m: ActorMessage| #[trigger] notifies(*dispatcher, message, m)),
            forall|rx: UnboundedReceiver<ActorMessage>| #[trigger] final(self).feeds_into(rx) == old(self).feeds_into(rx),
    {
        let notification = match notification_for(dispatcher, message) {
            Ok(m) => m,
            Err(e) => return Err(e),
        };
        let ghost m = notification;
        let r = self.post(notification);
        assert(notifies(*dispatcher, message, m));
        r
    }

    /// Sends `message` as a request, under the key and in the form that
    /// `dispatcher` gives it: on success exactly that request was queued, and
    /// its answer arrives at the returned pending reply, whose key is the
    /// request's. It fails as `tell` does.
    pub fn ask<D: Dispatcher>(&mut self, dispatcher: &D, message: BoxedMessage) -> (r: Result<PendingReply, ActorError>)
        ensures
            r matches Ok(p) ==> exists|m: ActorMessage| #[trigger] requests(*dispatcher, message, p.key@, p.receiver, m)
                && final(self).queued() == old(self).queued().push(m),
            r is Err ==> final(self).queued() == old(self).queued(),
            r matches Err(e) ==> dispatch_failure(*dispatcher, message, e) || (e is SendError
                && exists|k: Seq<char>, w: BoxedMessage| #[trigger] dispatched(*dispatcher, message, k, w)),
            forall|rx: UnboundedReceiver<ActorMessage>| #[trigger] final(self).feeds_into(rx) == old(self).feeds_into(rx),
    {
        let (reply_sender, receiver) = reply_channel();
        let request = match request_for(dispatcher, message, reply_sender) {
            Ok(m) => m,
            Err(e) => return Err(e),
        };
        let key = request.key().clone();
        let ghost m = request;
        assert(requests(*dispatcher, message, key@, receiver, m));
        match self.post(request) {
            Ok(()) => {
                let pending = PendingReply { key, receiver };
                assert(exists|m2: ActorMessage| #[trigger] requests(*dispatcher, message, pending.key@, pending.receiver, m2)
                    && self.queued() == old(self).queued().push(m2)) by {
                    assert(requests(*dispatcher, message, pending.key@, pending.receiver, m));
                }
                let r: Result<PendingReply, ActorError> = Ok(pending);
                assert(r->Ok_0.key@ == pending.key@);
                r
            },
            Err(e) => Err(e),
        }
    }
}

/// What a send into the mailbox comes to: success when the message was
/// queued, `SendError` when the actor has stopped reading.
pub fn send_outcome<T>(sent: Result<(), TrySendError<T>>) -> (r: Result<(), ActorError>)
    ensures
        sent is Ok <==> r is Ok,
        r matches Err(e) ==> e is SendError,
{
    match sent {
        Ok(()) => Ok(()),
        Err(_) => Err(ActorError::SendError),
    }
}

/// The notification that carries `message`: under the key that `dispatcher`
/// gives it, in the form `wrap` gives it under that key; or the dispatcher's
/// error.
pub fn notification_for<D: Dispatcher>(dispatcher: &D, message: BoxedMessage) -> (r: Result<ActorMessage, ActorError>)
    ensures
        r matches Ok(m) ==> (m matches ActorMessage::Notification(k, w) && dispatched(*dispatcher, message, k@, w)),
        r matches Err(e) ==> dispatch_failure(*dispatcher, message, e),
{
    let ghost m = message;
    let key = match dispatcher.message_key(&message) {
        Ok(k) => k,
        Err(e) => return Err(e),
    };
    let ghost k = key@;
    match dispatcher.wrap(message, key.clone()) {
        Ok(w) => Ok(ActorMessage::Notification(key, w)),
        Err(e) => {
            assert(dispatcher.keys(m, Ok(k)) && dispatcher.wraps(m, k, Err(e)));
            Err(e)
        },
    }
}

/// The request that carries `message` with the reply sender `reply`: under
/// the key that `dispatcher` gives it, in the form `wrap` gives it under that
/// key; or the dispatcher's error.
pub fn request_for<D: Dispatcher>(dispatcher: &D, message: BoxedMessage, reply: Sender<Reply>) -> (r: Result<ActorMessage, ActorError>)
    ensures
        r matches Ok(m) ==> (m matches ActorMessage::Request(k, w, s) && dispatched(*dispatcher, message, k@, w) && s == reply),
        r matches Err(e) ==> dispatch_failure(*dispatcher, message, e),
{
    let ghost m = message;
    let key = match dispatcher.message_key(&message) {
        Ok(k) => k,
        Err(e) => return Err(e),
    };
    let ghost k = key@;
    match dispatcher.wrap(message, key.clone()) {
        Ok(w) => Ok(ActorMessage::Request(key, w, reply)),
        Err(e) => {
            assert(dispatcher.keys(m, Ok(k)) && dispatcher.wraps(m, k, Err(e)));
            Err(e)
        },
    }
}

/// The dispatcher gives `message` the key `key` and, under it, the form
/// `wrapped`.
pub open spec fn dispatched<D: Dispatcher>(d: D, message: BoxedMessage, key: Seq<char>, wrapped: BoxedMessage) -> bool {
    d.keys(message, Ok(key)) && d.wraps(message, key, Ok(wrapped))
}

/// `e` is an error that the dispatcher gives on the way of `message`: in
/// place of a key, or in place of a form under the key it gave.
pub open spec fn dispatch_failure<D: Dispatcher>(d: D, message: BoxedMessage, e: ActorError) -> bool {
    ||| d.keys(message, Err(e))
    ||| exists|k: Seq<char>| d.keys(message, Ok(k)) && #[trigger] d.wraps(message, k, Err(e))
}

/// What the caller of a request makes of what arrived on the reply channel:
/// nothing (`None`, the actor dropped the request) means `SendError`; an
/// answer is passed on as it is.
pub fn received_reply(received: Option<Reply>) -> (r: Reply)
    ensures
        received is None ==> r matches Err(ActorError::SendError),
        received matches Some(answer) ==> r == answer,
{
    match received {
        Some(answer) => answer,
        None => Err(ActorError::SendError),
    }
}

/// The typed value of a response, or `DowncastError` when the response is not
/// an `R`; an error is passed on as it is.
pub fn typed_reply<R: 'static>(reply: Reply) -> (r: Result<R, ActorError>)
    ensures
        reply matches Err(e) ==> r == Err::<R, ActorError>(e),
        reply is Ok ==> (r is Ok || r matches Err(ActorError::DowncastError)),
        reply matches Ok(response) ==> forall|v: R| #[trigger] response.holds(v) ==> r == Ok::<R, ActorError>(v),
{
    match reply {
        Ok(response) => match response.downcast::<R>() {
            Ok(value) => Ok(value),
            Err(_) => Err(ActorError::DowncastError),
        },
        Err(e) => Err(e),
    }
}

/// Finishes a request once its answer is in: the answer, passed back through
/// `dispatcher` under the request's key, as an `R`.
pub fn complete_ask<D: Dispatcher, R: 'static>(dispatcher: &D, key: MessageKey, received: Option<Reply>) -> (r: Result<R, ActorError>)
    ensures
        received is None ==> r matches Err(ActorError::SendError),
        received matches Some(Err(e)) ==> r == Err::<R, ActorError>(e),
        received matches Some(Ok(response)) ==> exists|u: Reply|
            #[trigger] dispatcher.unwraps(response, key@, u)
                && (u matches Err(e) ==> r == Err::<R, ActorError>(e))
                && (u is Ok ==> (r is Ok || r matches Err(ActorError::DowncastError)))
                && (u matches Ok(b) ==> forall|v: R| #[trigger] b.holds(v) ==> r == Ok::<R, ActorError>(v)),
{
    let response = match received_reply(received) {
        Ok(response) => response,
        Err(e) => return Err(e),
    };
    let ghost k = key@;
    let ghost resp = response;
    let unwrapped = dispatcher.unwrap(response, key);
    let ghost u = unwrapped;
    let r = typed_reply(unwrapped);
    assert(dispatcher.unwraps(resp, k, u));
    r
}

/// What the actor does with a message from its mailbox.
pub enum Delivery<'a, H> {
    /// Run `handler` on `payload`; its answer goes to `reply` when the
    /// message was a request.
    Run { key: MessageKey, handler: &'a H, payload: BoxedMessage, reply: Option<Sender<Reply>> },
    /// No handler is registered under `key`: a request is answered
    /// `HandlerNotFound` through `reply`, a notification is dropped.
    NoHandler { key: MessageKey, reply: Option<Sender<Reply>> },
}

/// Decides what the actor does with `message`, given its handlers.
pub fn route<'a, H>(handlers: &'a HandlerRegistry<H>, message: ActorMessage) -> (r: Delivery<'a, H>)
    ensures
        r is Run <==> handlers@.contains_key(message.key_view()),
        r matches Delivery::Run { key, handler, payload, reply } ==> {
            &&& key@ == message.key_view()
            &&& *handler == handlers@[key@]
            &&& match message {
                ActorMessage::Notification(_, p) => payload == p && reply is None,
                ActorMessage::Request(_, p, s) => payload == p && reply == Some(s),
            }
        },
        r matches Delivery::NoHandler { key, reply } ==> {
            &&& key@ == message.key_view()
            &&& match message {
                ActorMessage::Notification(_, _) => reply is None,
                ActorMessage::Request(_, _, s) => reply == Some(s),
            }
        },
{
    let (key, payload, reply) = match message {
        ActorMessage::Notification(k, p) => (k, p, None),
        ActorMessage::Request(k, p, s) => (k, p, Some(s)),
    };
    match handlers.get(&key) {
        Some(handler) => Delivery::Run { key, handler, payload, reply },
        None => Delivery::NoHandler { key, reply },
    }
}

/// What the actor does with an answer.
pub enum ReplyAction {
    /// Send the answer on the one-shot sender of the request.
    Send(Sender<Reply>, Reply),
    /// Nobody asked (the message was a notification): keep the answer.
    Keep(Reply),
}

/// What to do with `answer`: send it to the one who asked, through the
/// request's sender, or keep it when the message was a notification.
pub fn reply_to(reply: Option<Sender<Reply>>, answer: Reply) -> (r: ReplyAction)
    ensures
        reply matches Some(s) ==> r == ReplyAction::Send(s, answer),
        reply is None ==> r == ReplyAction::Keep(answer),
{
    match reply {
        Some(sender) => ReplyAction::Send(sender, answer),
        None => ReplyAction::Keep(answer),
    }
}

/// The answer to a message that no handler is registered for.
pub fn no_handler_answer() -> (r: Reply)
    ensures
        r matches Err(ActorError::HandlerNotFound),
{
    Err(ActorError::HandlerNotFound)
}

/// What to do with a message that no handler is registered for: answer
/// `HandlerNotFound` through the request's sender, or, for a notification,
/// keep that answer.
pub fn refuse(reply: Option<Sender<Reply>>) -> (r: ReplyAction)
    ensures
        reply matches Some(s) ==> (r matches ReplyAction::Send(t, a) && t == s && a matches Err(ActorError::HandlerNotFound)),
        reply is None ==> r matches ReplyAction::Keep(Err(ActorError::HandlerNotFound)),
{
    reply_to(reply, no_handler_answer())
}

/// The name an actor's thread gets: the one given, or `actor`.
pub fn actor_name(name: Option<String>) -> (r: String)
    ensures
        name matches Some(n) ==> r == n,
        name is None ==> r@ == "actor"@,
{
    match name {
        Some(n) => n,
        None => String::from_str("actor"),
    }
}

/// The error of a spawn that was given no function to build the state with.
pub fn missing_state_init() -> (r: ActorError)
    ensures
        r matches ActorError::SpawnError(text) && text@ == "init_state function must be provided"@,
{
    ActorError::SpawnError(String::from_str("init_state function must be provided"))
}

/// The result of a spawn, from what came back from the actor's thread: the
/// text of the receive error when nothing came back in time, or what the
/// thread sent, an actor handle or the error of building the state, which
/// becomes a `SpawnError` that carries its description.
pub fn spawn_outcome<A>(received: Result<Result<A, ActorError>, String>) -> (r: Result<A, ActorError>)
    ensures
        received matches Err(text) ==> r == Err::<A, ActorError>(ActorError::SpawnError(text)),
        received matches Ok(Ok(a)) ==> r == Ok::<A, ActorError>(a),
        received matches Ok(Err(e)) ==> (r matches Err(ActorError::SpawnError(text)) && text@ == crate::error::actor_error_text(e)),
{
    match received {
        Err(text) => Err(ActorError::SpawnError(text)),
        Ok(Ok(a)) => Ok(a),
        Ok(Err(e)) => Err(ActorError::SpawnError(e.describe())),
    }
}

/// The result of an actor's message loop: `HandlerPanicked` when it
/// panicked, success when it ended because every mailbox handle was dropped.
pub fn run_outcome(panicked: bool) -> (r: Result<(), ActorError>)
    ensures
        panicked ==> r matches Err(ActorError::HandlerPanicked),
        !panicked ==> r is Ok,
{
    if panicked {
        Err(ActorError::HandlerPanicked)
    } else {
        Ok(())
    }
}

} // verus!
