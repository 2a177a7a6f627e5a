use vstd::prelude::*;
use futures::channel::mpsc::{TrySendError, UnboundedReceiver, UnboundedSender};
use futures::channel::oneshot::{Canceled, Receiver, Sender};
use crate::actor::{ActorMessage, Reply};

verus! {

/// The sending half of an unbounded channel of `futures`.
#[verifier::external_type_specification]
#[verifier::external_body]
#[verifier::reject_recursive_types(T)]
pub struct ExUnboundedSender<T>(UnboundedSender<T>);

/// The receiving half of an unbounded channel of `futures`.
#[verifier::external_type_specification]
#[verifier::external_body]
#[verifier::reject_recursive_types(T)]
pub struct ExUnboundedReceiver<T>(UnboundedReceiver<T>);

/// The error of a send on a channel of `futures` whose receiver is gone.
#[verifier::external_type_specification]
#[verifier::external_body]
#[verifier::reject_recursive_types(T)]
pub struct ExTrySendError<T>(TrySendError<T>);

/// The sending half of a one-shot channel of `futures`.
#[verifier::external_type_specification]
#[verifier::external_body]
#[verifier::reject_recursive_types(T)]
pub struct ExSender<T>(Sender<T>);

/// The receiving half of a one-shot channel of `futures`.
#[verifier::external_type_specification]
#[verifier::external_body]
#[verifier::reject_recursive_types(T)]
pub struct ExReceiver<T>(Receiver<T>);

/// The error a one-shot receiver yields when its sender was dropped; the
/// receiver's `Future` impl names it, so the receiver's declaration needs it.
#[verifier::external_type_specification]
#[verifier::external_body]
pub struct ExCanceled(Canceled);

/// The messages that `sender` has put into its channel, oldest first: what
/// the channel has received through this handle.
pub uninterp spec fn sent(sender: UnboundedSender<ActorMessage>) -> Seq<ActorMessage>;

/// What `UnboundedSender::is_connected_to` answers: whether `sender` sends
/// into the channel that `receiver` reads.
pub uninterp spec fn feeds(sender: UnboundedSender<ActorMessage>, receiver: UnboundedReceiver<ActorMessage>) -> bool;

/// What `oneshot::Sender::is_connected_to` answers: whether what `sender`
/// sends arrives at `receiver`.
pub uninterp spec fn answers_to(sender: Sender<Reply>, receiver: Receiver<Reply>) -> bool;

/// `futures::channel::mpsc::unbounded`: a new channel for an actor's
/// messages. Its sender has sent nothing yet and sends into the channel that
/// its receiver reads (both halves share one `Arc`).
#[verifier::external_body]
pub(crate) fn open_channel() -> (r: (UnboundedSender<ActorMessage>, UnboundedReceiver<ActorMessage>))
    ensures
        sent(r.0) == Seq::<ActorMessage>::empty(),
        feeds(r.0, r.1),
{
    futures::channel::mpsc::unbounded()
}

/// `UnboundedSender::unbounded_send`: on success `msg` is the last message
/// the sender has put into its channel; on failure (the receiver is gone)
/// nothing was put in. Either way the sender keeps its channel. Which of the
/// two happens depends on the other end and is not promised.
#[verifier::external_body]
pub(crate) fn send_message(sender: &mut UnboundedSender<ActorMessage>, msg: ActorMessage) -> (r: Result<(), TrySendError<ActorMessage>>)
    ensures
        r is Ok ==> sent(*final(sender)) == sent(*old(sender)).push(msg),
        r is Err ==> sent(*final(sender)) == sent(*old(sender)),
        forall|rx: UnboundedReceiver<ActorMessage>| #[trigger] feeds(*final(sender), rx) == feeds(*old(sender), rx),
{
    sender.unbounded_send(msg)
}

/// `UnboundedSender::clone`: another sender into the same channel (it shares
/// the channel's `Arc`), which has sent nothing yet.
#[verifier::external_body]
pub(crate) fn clone_sender(sender: &UnboundedSender<ActorMessage>) -> (r: UnboundedSender<ActorMessage>)
    ensures
        sent(r) == Seq::<ActorMessage>::empty(),
        forall|rx: UnboundedReceiver<ActorMessage>| #[trigger] feeds(r, rx) == feeds(*sender, rx),
{
    sender.clone()
}

/// `UnboundedSender::is_connected_to`.
#[verifier::external_body]
pub(crate) fn is_connected_to(sender: &UnboundedSender<ActorMessage>, receiver: &UnboundedReceiver<ActorMessage>) -> (r: bool)
    ensures
        r == feeds(*sender, *receiver),
{
    sender.is_connected_to(receiver)
}

/// `futures::channel::oneshot::channel`: a new channel for one answer, whose
/// sender sends to its receiver (both halves share one `Arc`).
#[verifier::external_body]
pub(crate) fn reply_channel() -> (r: (Sender<Reply>, Receiver<Reply>))
    ensures
        answers_to(r.0, r.1),
{
    futures::channel::oneshot::channel()
}

/// `oneshot::Sender::is_connected_to`.
#[verifier::external_body]
pub(crate) fn reply_is_connected(sender: &Sender<Reply>, receiver: &Receiver<Reply>) -> (r: bool)
    ensures
        r == answers_to(*sender, *receiver),
{
    sender.is_connected_to(receiver)
}

} // verus!
