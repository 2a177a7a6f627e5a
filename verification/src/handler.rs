use vstd::prelude::*;
use core::future::Future;
use core::marker::PhantomData;
use crate::error::{ActorError, ErrorText};
use crate::message::{BoxedMessage, BoxedResponse, MessageDowncast, Response};

verus! {

/// A handler that reads the actor's state and answers at once.
pub trait SyncFunc<'a, S: 'static, C: 'static, R: 'static, E: ErrorText + Send + Sync + 'static>:
    Fn(&'a S, C) -> Result<R, E> + Send + Sync {
}

impl<'a, F, S: 'static, C: 'static, R: 'static, E: ErrorText + Send + Sync + 'static> SyncFunc<
    'a,
    S,
    C,
    R,
    E,
> for F where F: Fn(&'a S, C) -> Result<R, E> + Send + Sync {

}

/// A handler that may change the actor's state and answers at once.
pub trait SyncMutatingFunc<'a, S: 'static, C: 'static, R: 'static, E: ErrorText + Send + Sync + 'static>:
    Fn(&'a mut S, C) -> Result<R, E> + Send + Sync {
}

impl<'a, F, S: 'static, C: 'static, R: 'static, E: ErrorText + Send + Sync + 'static> SyncMutatingFunc<
    'a,
    S,
    C,
    R,
    E,
> for F where F: Fn(&'a mut S, C) -> Result<R, E> + Send + Sync {

}

/// A handler that reads the actor's state and answers through a future.
pub trait AsyncFunc<'a, S: 'static, C: 'static, R: 'static, E: ErrorText + Send + Sync + 'static>:
    Fn(&'a S, C) -> Self::Fut + Send + Sync {
    /// The future that yields the handler's answer.
    type Fut: Future<Output = Result<R, E>> + Send;
}

impl<'a, F, S: 'static, C: 'static, R: 'static, E: ErrorText + Send + Sync + 'static, Fut> AsyncFunc<
    'a,
    S,
    C,
    R,
    E,
> for F where F: Fn(&'a S, C) -> Fut + Send + Sync, Fut: Future<Output = Result<R, E>> + Send {
    type Fut = Fut;
}

/// A handler that may change the actor's state and answers through a future.
pub trait AsyncMutatingFunc<'a, S: 'static, C: 'static, R: 'static, E: ErrorText + Send + Sync + 'static>:
    Fn(&'a mut S, C) -> Self::Fut + Send + Sync {
    /// The future that yields the handler's answer.
    type Fut: Future<Output = Result<R, E>> + Send;
}

impl<'a, F, S: 'static, C: 'static, R: 'static, E: ErrorText + Send + Sync + 'static, Fut> AsyncMutatingFunc<
    'a,
    S,
    C,
    R,
    E,
> for F where F: Fn(&'a mut S, C) -> Fut + Send + Sync, Fut: Future<Output = Result<R, E>> + Send {
    type Fut = Fut;
}

/// `r` is what a handler answers when its function returned `res`: the same
/// value on success, and on failure a `CustomError` with the error's text.
pub open spec fn lifted<R, E: ErrorText>(res: Result<R, E>, r: Result<R, ActorError>) -> bool {
    match res {
        Ok(v) => r == Ok::<R, ActorError>(v),
        Err(e) => r matches Err(ActorError::CustomError(text)) && e.shows_as(text@),
    }
}

/// The answer a handler gives for the result of its function: the failure of
/// the function becomes a `CustomError` that carries the error's text.
pub fn lift_result<R, E: ErrorText>(res: Result<R, E>) -> (r: Result<R, ActorError>)
    ensures
        lifted(res, r),
{
    match res {
        Ok(v) => Ok(v),
        Err(e) => Err(ActorError::CustomError(e.error_text())),
    }
}

/// The answer a handler gives for the output of its function, with the
/// successful value boxed as a type-erased response.
pub fn settle<R: Response, E: ErrorText>(output: Result<R, E>) -> (r: Result<BoxedResponse, ActorError>)
    ensures
        answered_by(output, r),
{
    match lift_result(output) {
        Ok(v) => Ok(BoxedResponse::new(v)),
        Err(e) => Err(e),
    }
}

/// Whether `r` is an answer that a handler may give: a response, a
/// `DispatchError` for a message of the wrong type, or a `CustomError` when
/// its function failed.
pub open spec fn handler_answer(r: Result<BoxedResponse, ActorError>) -> bool {
    match r {
        Ok(_) => true,
        Err(e) => e is DispatchError || e is CustomError,
    }
}

/// `r` is the answer a handler gives when its function returned `res`: a
/// response that holds the function's value on success, and on failure a
/// `CustomError` with the error's text.
pub open spec fn answered_by<R: 'static, E: ErrorText>(res: Result<R, E>, r: Result<BoxedResponse, ActorError>) -> bool {
    match res {
        Ok(v) => r matches Ok(b) && b.holds(v),
        Err(e) => r matches Err(ActorError::CustomError(text)) && e.shows_as(text@),
    }
}

/// A handler that the actor can run on a type-erased message and wait for.
pub trait SyncMessageHandler<S> {
    /// Runs the handler on `message`.
    fn handle_sync(&self, state: &mut S, message: &BoxedMessage) -> (r: Result<BoxedResponse, ActorError>)
        ensures
            handler_answer(r),
            r matches Err(ActorError::DispatchError) ==> *final(state) == *old(state),
    ;
}

/// A handler built from a function that reads the state and answers at once.
pub struct SyncHandler<S: 'static, C: 'static, R: 'static, E: ErrorText + Send + Sync + 'static, F> where
    F: for<'a> SyncFunc<'a, S, C, R, E>,
 {
    func: F,
    marker: PhantomData<(S, C, R, E)>,
}

impl<S: 'static, C: 'static, R: 'static, E: ErrorText + Send + Sync + 'static, F> SyncHandler<S, C, R, E, F> where
    F: for<'a> SyncFunc<'a, S, C, R, E>,
 {
    /// The function accepts every state and every argument.
    #[verifier::type_invariant]
    spec fn callable(self) -> bool {
        forall|s: &S, c: C| #[trigger] self.func.requires((s, c))
    }

    /// The handler's function.
    pub closed spec fn func(self) -> F {
        self.func
    }

    /// A handler that runs `f`.
    pub fn new(f: F) -> (r: Self)
        requires
            forall|s: &S, c: C| #[trigger] f.requires((s, c)),
        ensures
            r.func() == f,
    {
        SyncHandler { func: f, marker: PhantomData }
    }

    /// Runs the function on `state` and `params`; a failure becomes a
    /// `CustomError`.
    pub fn call(&self, state: &S, params: C) -> (r: Result<R, ActorError>)
        ensures
            exists|res: Result<R, E>| #[trigger] self.func().ensures((state, params), res) && lifted(res, r),
    {
        proof { use_type_invariant(self); }
        let ghost p = params;
        let res = (self.func)(state, params);
        let r = lift_result(res);
        assert(self.func().ensures((state, p), res) && lifted(res, r));
        r
    }

    /// Runs the function when the message was of the handler's argument
    /// type (`params` is `Some`), and answers `DispatchError` otherwise.
    pub fn invoke(&self, state: &S, params: Option<C>) -> (r: Result<R, ActorError>)
        ensures
            params is None ==> r == Err::<R, ActorError>(ActorError::DispatchError),
            params matches Some(c) ==> exists|res: Result<R, E>| #[trigger] self.func().ensures((state, c), res) && lifted(res, r),
    {
        match params {
            Some(c) => self.call(state, c),
            None => Err(ActorError::DispatchError),
        }
    }

    /// Runs the handler on a type-erased message that it takes over: the
    /// function gets the message itself when it is of the argument type;
    /// otherwise the answer is `DispatchError`. The state is only read.
    pub fn handle_message(&self, state: &mut S, message: BoxedMessage) -> (r: Result<BoxedResponse, ActorError>)
        where R: Response
        ensures
            *final(state) == *old(state),
            handler_answer(r),
            !(r matches Err(ActorError::DispatchError)) ==> exists|c: C, res: Result<R, E>|
                #[trigger] self.func().ensures((&*old(state), c), res) && answered_by(res, r),
            forall|c: C| #[trigger] message.holds(c) ==> exists|res: Result<R, E>|
                #[trigger] self.func().ensures((&*old(state), c), res) && answered_by(res, r),
    {
        let params = match MessageDowncast::downcast::<C>(message) {
            Ok(c) => Some(c),
            Err(_) => None,
        };
        match self.invoke(&*state, params) {
            Ok(v) => Ok(BoxedResponse::new(v)),
            Err(e) => Err(e),
        }
    }
}

impl<S: 'static, C: Clone + 'static, R: Response, E: ErrorText + Send + Sync + 'static, F> SyncMessageHandler<S> for SyncHandler<S, C, R, E, F> where
    F: for<'a> SyncFunc<'a, S, C, R, E>,
 {
    fn handle_sync(&self, state: &mut S, message: &BoxedMessage) -> (r: Result<BoxedResponse, ActorError>)
        ensures
            *final(state) == *old(state),
            !(r matches Err(ActorError::DispatchError)) ==> exists|c: C, res: Result<R, E>|
                #[trigger] self.func().ensures((&*old(state), c), res) && answered_by(res, r),
            forall|c: C| #[trigger] message.holds(c) ==> exists|d: C, res: Result<R, E>|
                cloned(c, d) && #[trigger] self.func().ensures((&*old(state), d), res) && answered_by(res, r),
    {
        let params = match message.downcast::<C>() {
            Some(p) => Some(p.clone()),
            None => None,
        };
        match self.invoke(&*state, params) {
            Ok(v) => Ok(BoxedResponse::new(v)),
            Err(e) => Err(e),
        }
    }
}

/// A handler built from a function that may change the state and answers at
/// once.
pub struct SyncMutatingHandler<S: 'static, C: 'static, R: 'static, E: ErrorText + Send + Sync + 'static, F> where
    F: for<'a> SyncMutatingFunc<'a, S, C, R, E>,
 {
    func: F,
    marker: PhantomData<(S, C, R, E)>,
}

impl<S: 'static, C: 'static, R: 'static, E: ErrorText + Send + Sync + 'static, F> SyncMutatingHandler<S, C, R, E, F> where
    F: for<'a> SyncMutatingFunc<'a, S, C, R, E>,
 {
    /// The function accepts every state and every argument.
    #[verifier::type_invariant]
    spec fn callable(self) -> bool {
        forall|s: &mut S, c: C| #[trigger] self.func.requires((s, c))
    }

    /// The handler's function.
    pub closed spec fn func(self) -> F {
        self.func
    }

    /// A handler that runs `f`.
    pub fn new(f: F) -> (r: Self)
        requires
            forall|s: &mut S, c: C| #[trigger] f.requires((s, c)),
        ensures
            r.func() == f,
    {
        SyncMutatingHandler { func: f, marker: PhantomData }
    }

    /// Runs the function on `state` and `params`; a failure becomes a
    /// `CustomError`.
    pub fn call(&self, state: &mut S, params: C) -> (r: Result<R, ActorError>)
        ensures
            exists|res: Result<R, E>, s: &mut S|
                *s == *old(state) && *final(s) == *final(state) && #[trigger] self.func().ensures((s, params), res)
                    && lifted(res, r),
    {
        let res = self.apply(state, params);
        lift_result(res)
    }

    /// Runs the function on `state` and `params`.
    fn apply(&self, state: &mut S, params: C) -> (res: Result<R, E>)
        ensures
            exists|s: &mut S| *s == *old(state) && *final(s) == *final(state) && #[trigger] self.func().ensures((s, params), res),
    {
        proof { use_type_invariant(self); }
        assert(self.func().requires((state, params)));
        (self.func)(state, params)
    }

    /// Runs the function when the message was of the handler's argument
    /// type (`params` is `Some`); otherwise answers `DispatchError` and
    /// leaves the state as it was.
    pub fn invoke(&self, state: &mut S, params: Option<C>) -> (r: Result<R, ActorError>)
        ensures
            params is None ==> r == Err::<R, ActorError>(ActorError::DispatchError) && *final(state) == *old(state),
            params matches Some(c) ==> exists|res: Result<R, E>, s: &mut S|
                *s == *old(state) && *final(s) == *final(state) && #[trigger] self.func().ensures((s, c), res)
                    && lifted(res, r),
    {
        match params {
            Some(c) => self.call(state, c),
            None => Err(ActorError::DispatchError),
        }
    }

    /// Runs the handler on a type-erased message that it takes over: the
    /// function gets the message itself when it is of the argument type;
    /// otherwise the answer is `DispatchError` and the state is left as it
    /// was.
    pub fn handle_message(&self, state: &mut S, message: BoxedMessage) -> (r: Result<BoxedResponse, ActorError>)
        where R: Response
        ensures
            handler_answer(r),
            r matches Err(ActorError::DispatchError) ==> *final(state) == *old(state),
            !(r matches Err(ActorError::DispatchError)) ==> exists|c: C, res: Result<R, E>, s: &mut S|
                *s == *old(state) && *final(s) == *final(state) && #[trigger] self.func().ensures((s, c), res)
                    && answered_by(res, r),
            forall|c: C| #[trigger] message.holds(c) ==> exists|res: Result<R, E>, s: &mut S|
                *s == *old(state) && *final(s) == *final(state) && #[trigger] self.func().ensures((s, c), res)
                    && answered_by(res, r),
    {
        let params = match MessageDowncast::downcast::<C>(message) {
            Ok(c) => Some(c),
            Err(_) => None,
        };
        match self.invoke(state, params) {
            Ok(v) => Ok(BoxedResponse::new(v)),
            Err(e) => Err(e),
        }
    }
}

impl<S: 'static, C: Clone + 'static, R: Response, E: ErrorText + Send + Sync + 'static, F> SyncMessageHandler<S> for SyncMutatingHandler<S, C, R, E, F> where
    F: for<'a> SyncMutatingFunc<'a, S, C, R, E>,
 {
    fn handle_sync(&self, state: &mut S, message: &BoxedMessage) -> (r: Result<BoxedResponse, ActorError>)
        ensures
            !(r matches Err(ActorError::DispatchError)) ==> exists|c: C, res: Result<R, E>, s: &mut S|
                *s == *old(state) && *final(s) == *final(state) && #[trigger] self.func().ensures((s, c), res)
                    && answered_by(res, r),
            forall|c: C| #[trigger] message.holds(c) ==> exists|d: C, res: Result<R, E>, s: &mut S|
                cloned(c, d) && *s == *old(state) && *final(s) == *final(state) && #[trigger] self.func().ensures((s, d), res)
                    && answered_by(res, r),
    {
        let params = match message.downcast::<C>() {
            Some(p) => Some(p.clone()),
            None => None,
        };
        match self.invoke(state, params) {
            Ok(v) => Ok(BoxedResponse::new(v)),
            Err(e) => Err(e),
        }
    }
}

/// A handler built from a function that reads the state and answers through
/// a future.
pub struct AsyncHandler<S: 'static, C: 'static, R: 'static, E: ErrorText + Send + Sync + 'static, F> where
    F: for<'a> AsyncFunc<'a, S, C, R, E>,
 {
    func: F,
    marker: PhantomData<(S, C, R, E)>,
}

impl<S: 'static, C: 'static, R: 'static, E: ErrorText + Send + Sync + 'static, F> AsyncHandler<S, C, R, E, F> where
    F: for<'a> AsyncFunc<'a, S, C, R, E>,
 {
    /// The function accepts every state and every argument.
    #[verifier::type_invariant]
    spec fn callable(self) -> bool {
        forall|s: &S, c: C| #[trigger] self.func.requires((s, c))
    }

    /// The handler's function.
    pub closed spec fn func(self) -> F {
        self.func
    }

    /// A handler that runs `f`.
    pub fn new(f: F) -> (r: Self)
        requires
            forall|s: &S, c: C| #[trigger] f.requires((s, c)),
        ensures
            r.func() == f,
    {
        AsyncHandler { func: f, marker: PhantomData }
    }

    /// Starts the function on `state` and `params`: the future that yields
    /// its result.
    pub fn call<'a>(&self, state: &'a S, params: C) -> (fut: <F as AsyncFunc<'a, S, C, R, E>>::Fut)
        ensures
            self.func().ensures((state, params), fut),
    {
        proof { use_type_invariant(self); }
        assert(self.func().requires((state, params)));
        (self.func)(state, params)
    }

    /// Starts the function when the message was of the handler's argument
    /// type (`params` is `Some`), and answers `DispatchError` otherwise.
    pub fn prepare<'a>(&self, state: &'a S, params: Option<C>) -> (r: Result<<F as AsyncFunc<'a, S, C, R, E>>::Fut, ActorError>)
        ensures
            params is None ==> r matches Err(ActorError::DispatchError),
            params matches Some(c) ==> (r matches Ok(fut) && self.func().ensures((state, c), fut)),
    {
        match params {
            Some(c) => Ok(self.call(state, c)),
            None => Err(ActorError::DispatchError),
        }
    }

    /// Starts the handler on a type-erased message: the future of the
    /// function's result, or `DispatchError` when the message is not of the
    /// handler's argument type.
    pub fn start<'a>(&self, state: &'a S, message: &BoxedMessage) -> (r: Result<<F as AsyncFunc<'a, S, C, R, E>>::Fut, ActorError>)
        where C: Clone
        ensures
            r matches Err(e) ==> e is DispatchError,
            r matches Ok(fut) ==> exists|c: C| #[trigger] self.func().ensures((state, c), fut),
            forall|c: C| #[trigger] message.holds(c) ==> (r matches Ok(fut) && exists|d: C|
                cloned(c, d) && #[trigger] self.func().ensures((state, d), fut)),
    {
        let params = match message.downcast::<C>() {
            Some(p) => Some(p.clone()),
            None => None,
        };
        self.prepare(state, params)
    }

    /// Starts the handler on a type-erased message that it takes over: the
    /// future of the function's result on the message itself, or
    /// `DispatchError` when the message is not of the argument type.
    pub fn start_message<'a>(&self, state: &'a S, message: BoxedMessage) -> (r: Result<<F as AsyncFunc<'a, S, C, R, E>>::Fut, ActorError>)
        ensures
            r matches Err(e) ==> e is DispatchError,
            r matches Ok(fut) ==> exists|c: C| #[trigger] self.func().ensures((state, c), fut),
            forall|c: C| #[trigger] message.holds(c) ==> (r matches Ok(fut) && self.func().ensures((state, c), fut)),
    {
        let params = match MessageDowncast::downcast::<C>(message) {
            Ok(c) => Some(c),
            Err(_) => None,
        };
        self.prepare(state, params)
    }
}

/// A handler built from a function that may change the state and answers
/// through a future.
pub struct AsyncMutatingHandler<S: 'static, C: 'static, R: 'static, E: ErrorText + Send + Sync + 'static, F> where
    F: for<'a> AsyncMutatingFunc<'a, S, C, R, E>,
 {
    func: F,
    marker: PhantomData<(S, C, R, E)>,
}

impl<S: 'static, C: 'static, R: 'static, E: ErrorText + Send + Sync + 'static, F> AsyncMutatingHandler<S, C, R, E, F> where
    F: for<'a> AsyncMutatingFunc<'a, S, C, R, E>,
 {
    /// The function accepts every state and every argument.
    #[verifier::type_invariant]
    spec fn callable(self) -> bool {
        forall|s: &mut S, c: C| #[trigger] self.func.requires((s, c))
    }

    /// The handler's function.
    pub closed spec fn func(self) -> F {
        self.func
    }

    /// A handler that runs `f`.
    pub fn new(f: F) -> (r: Self)
        requires
            forall|s: &mut S, c: C| #[trigger] f.requires((s, c)),
        ensures
            r.func() == f,
    {
        AsyncMutatingHandler { func: f, marker: PhantomData }
    }

    /// Starts the function on `state` and `params`: the future that yields
    /// its result, and that holds the state until it is done.
    pub fn call<'a>(&self, state: &'a mut S, params: C) -> (fut: <F as AsyncMutatingFunc<'a, S, C, R, E>>::Fut)
        ensures
            exists|s: &mut S| *s == *old(state) && *final(s) == *final(state) && #[trigger] self.func().ensures((s, params), fut),
    {
        proof { use_type_invariant(self); }
        assert(self.func().requires((state, params)));
        (self.func)(state, params)
    }

    /// Starts the function when the message was of the handler's argument
    /// type (`params` is `Some`); otherwise answers `DispatchError` and
    /// leaves the state as it was.
    pub fn prepare<'a>(&self, state: &'a mut S, params: Option<C>) -> (r: Result<<F as AsyncMutatingFunc<'a, S, C, R, E>>::Fut, ActorError>)
        ensures
            params is None ==> (r matches Err(ActorError::DispatchError)) && *final(state) == *old(state),
            params matches Some(c) ==> r is Ok && exists|s: &mut S|
                *s == *old(state) && #[trigger] self.func().ensures((s, c), r->Ok_0),
    {
        match params {
            Some(c) => {
                let ghost before = *state;
                let fut = self.call(state, c);
                let ghost started = fut;
                let r = Ok(fut);
                assert(r->Ok_0 == started);
                assert(exists|s: &mut S| *s == before && #[trigger] self.func().ensures((s, c), started));
                r
            },
            None => Err(ActorError::DispatchError),
        }
    }

    /// Starts the handler on a type-erased message: the future of the
    /// function's result, or `DispatchError`, with the state untouched, when
    /// the message is not of the handler's argument type.
    pub fn start<'a>(&self, state: &'a mut S, message: &BoxedMessage) -> (r: Result<<F as AsyncMutatingFunc<'a, S, C, R, E>>::Fut, ActorError>)
        where C: Clone
        ensures
            r matches Err(e) ==> (e is DispatchError && *final(state) == *old(state)),
            r matches Ok(fut) ==> exists|c: C, s: &mut S| *s == *old(state) && #[trigger] self.func().ensures((s, c), fut),
            forall|c: C| #[trigger] message.holds(c) ==> (r is Ok && exists|d: C, s: &mut S|
                cloned(c, d) && *s == *old(state) && #[trigger] self.func().ensures((s, d), r->Ok_0)),
    {
        let params = match message.downcast::<C>() {
            Some(p) => Some(p.clone()),
            None => None,
        };
        self.prepare(state, params)
    }

    /// Starts the handler on a type-erased message that it takes over: the
    /// future of the function's result on the message itself, or
    /// `DispatchError`, with the state untouched, when the message is not of
    /// the argument type.
    pub fn start_message<'a>(&self, state: &'a mut S, message: BoxedMessage) -> (r: Result<<F as AsyncMutatingFunc<'a, S, C, R, E>>::Fut, ActorError>)
        ensures
            r matches Err(e) ==> (e is DispatchError && *final(state) == *old(state)),
            r matches Ok(fut) ==> exists|c: C, s: &mut S| *s == *old(state) && #[trigger] self.func().ensures((s, c), fut),
            forall|c: C| #[trigger] message.holds(c) ==> (r is Ok && exists|s: &mut S|
                *s == *old(state) && #[trigger] self.func().ensures((s, c), r->Ok_0)),
    {
        let params = match MessageDowncast::downcast::<C>(message) {
            Ok(c) => Some(c),
            Err(_) => None,
        };
        self.prepare(state, params)
    }
}

} // verus!
