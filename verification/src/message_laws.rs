use vstd::prelude::*;
use crate::actor::{typed_reply, Reply};
use crate::error::{ActorError, ErrorText};
use crate::handler::{
    answered_by, AsyncFunc, AsyncHandler, AsyncMutatingFunc, AsyncMutatingHandler, SyncFunc,
    SyncHandler, SyncMutatingFunc, SyncMutatingHandler,
};
use crate::message::{BoxedMessage, BoxedResponse, Message, Response};

verus! {

/// A message built from `value` shows `value` when it is looked at as the
/// type it was built from: `BoxedMessage::new(value)` followed by
/// `downcast::<T>` is `Some(&value)`.
pub proof fn law_message_round_trip<T: Message>(value: T, message: BoxedMessage, seen: Option<&T>)
    requires
        call_ensures(BoxedMessage::new::<T>, (value,), message),
        call_ensures(BoxedMessage::downcast::<T>, (&message,), seen),
    ensures
        seen == Some(&value),
{
    let args = (&message,);
    assert((*args.0).holds(value));
}

/// Asking for an `R` of a reply that is a response built from the `R` value
/// `value` gives `value`; `DowncastError` never comes of it.
pub proof fn law_typed_reply_gives_the_value<R: Response>(value: R, response: BoxedResponse, r: Result<R, ActorError>)
    requires
        call_ensures(BoxedResponse::new::<R>, (value,), response),
        call_ensures(typed_reply::<R>, (Ok::<BoxedResponse, ActorError>(response),), r),
    ensures
        r == Ok::<R, ActorError>(value),
{
    let args = (Ok::<BoxedResponse, ActorError>(response),);
    assert(args.0->Ok_0.holds(value));
}

/// A failed reply stays the same failure when it is asked for an `R`.
pub proof fn law_typed_reply_passes_failures_on<R: 'static>(e: ActorError, r: Result<R, ActorError>)
    requires
        call_ensures(typed_reply::<R>, (Err::<BoxedResponse, ActorError>(e),), r),
    ensures
        r == Err::<R, ActorError>(e),
{
}

/// A reading handler given a message built from a value `c` of its argument
/// type runs its function on the state and `c`: it does not answer
/// `DispatchError`, it leaves the state as it was, and it answers what the
/// function gave, a response that holds the function's value or a
/// `CustomError` with the function's error text.
pub proof fn law_sync_handler_runs_on_its_argument<S, C: Message, R: Response, E: ErrorText + Send + Sync + 'static, F>(
    args: (&SyncHandler<S, C, R, E, F>, &mut S, BoxedMessage),
    c: C,
    r: Result<BoxedResponse, ActorError>,
)
    where F: for<'a> SyncFunc<'a, S, C, R, E>,
    requires
        call_ensures(BoxedMessage::new::<C>, (c,), args.2),
        call_ensures(SyncHandler::<S, C, R, E, F>::handle_message, args, r),
    ensures
        !(r matches Err(ActorError::DispatchError)),
        *final(args.1) == *old(args.1),
        exists|res: Result<R, E>| #[trigger] args.0.func().ensures((&*old(args.1), c), res) && answered_by(res, r),
{
}

/// A state-changing handler given a message built from a value `c` of its
/// argument type runs its function on the state and `c`: it does not answer
/// `DispatchError`, the state becomes what the function made of it, and the
/// answer is what the function gave, a response that holds the function's
/// value or a `CustomError` with the function's error text.
pub proof fn law_sync_mutating_handler_runs_on_its_argument<S, C: Message, R: Response, E: ErrorText + Send + Sync + 'static, F>(
    args: (&SyncMutatingHandler<S, C, R, E, F>, &mut S, BoxedMessage),
    c: C,
    r: Result<BoxedResponse, ActorError>,
)
    where F: for<'a> SyncMutatingFunc<'a, S, C, R, E>,
    requires
        call_ensures(BoxedMessage::new::<C>, (c,), args.2),
        call_ensures(SyncMutatingHandler::<S, C, R, E, F>::handle_message, args, r),
    ensures
        !(r matches Err(ActorError::DispatchError)),
        exists|res: Result<R, E>, s: &mut S|
            *s == *old(args.1) && *final(s) == *final(args.1) && #[trigger] args.0.func().ensures((s, c), res)
                && answered_by(res, r),
{
}

/// When a state-changing handler's function gives only `Ok(v)` for the
/// message's value, the handler's answer, asked for as an `R` the way `ask`
/// does, is `v`.
pub proof fn law_sync_mutating_answer_is_the_function_value<S, C: Message, R: Response, E: ErrorText + Send + Sync + 'static, F>(
    args: (&SyncMutatingHandler<S, C, R, E, F>, &mut S, BoxedMessage),
    c: C,
    v: R,
    answer: Reply,
    typed: Result<R, ActorError>,
)
    where F: for<'a> SyncMutatingFunc<'a, S, C, R, E>,
    requires
        call_ensures(BoxedMessage::new::<C>, (c,), args.2),
        forall|s: &mut S, res: Result<R, E>| #[trigger] args.0.func().ensures((s, c), res) ==> res == Ok::<R, E>(v),
        call_ensures(SyncMutatingHandler::<S, C, R, E, F>::handle_message, args, answer),
        call_ensures(typed_reply::<R>, (answer,), typed),
    ensures
        typed == Ok::<R, ActorError>(v),
{
}

/// A reading async handler given a message built from a value `c` of its
/// argument type starts its function on the state and `c`: the answer is
/// `Ok` of the future that the function returned for them.
pub proof fn law_async_handler_starts_on_its_argument<'a, S, C: Message, R: 'static, E: ErrorText + Send + Sync + 'static, F>(
    args: (&AsyncHandler<S, C, R, E, F>, &'a S, BoxedMessage),
    c: C,
    r: Result<<F as AsyncFunc<'a, S, C, R, E>>::Fut, ActorError>,
)
    where F: for<'b> AsyncFunc<'b, S, C, R, E>,
    requires
        call_ensures(BoxedMessage::new::<C>, (c,), args.2),
        call_ensures(AsyncHandler::<S, C, R, E, F>::start_message, args, r),
    ensures
        r matches Ok(fut) && args.0.func().ensures((args.1, c), fut),
{
}

/// A state-changing async handler given a message built from a value `c`
/// of its argument type starts its function on the state and `c`: the
/// answer is `Ok` of the future that the function returned for them.
pub proof fn law_async_mutating_handler_starts_on_its_argument<'a, S, C: Message, R: 'static, E: ErrorText + Send + Sync + 'static, F>(
    args: (&AsyncMutatingHandler<S, C, R, E, F>, &'a mut S, BoxedMessage),
    c: C,
    r: Result<<F as AsyncMutatingFunc<'a, S, C, R, E>>::Fut, ActorError>,
)
    where F: for<'b> AsyncMutatingFunc<'b, S, C, R, E>,
    requires
        call_ensures(BoxedMessage::new::<C>, (c,), args.2),
        call_ensures(AsyncMutatingHandler::<S, C, R, E, F>::start_message, args, r),
    ensures
        r is Ok,
        exists|s: &mut S| *s == *old(args.1) && #[trigger] args.0.func().ensures((s, c), r->Ok_0),
{
}

} // verus!
