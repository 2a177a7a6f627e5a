use std::collections::HashMap;

use actor::error::ActorError;
use actor::handler::{
    settle, AsyncFunc, AsyncHandler, AsyncMutatingFunc, AsyncMutatingHandler, SyncHandler,
    SyncMessageHandler, SyncMutatingHandler,
};
use actor::message::{BoxedMessage, BoxedResponse, ResponseDowncast};
use futures::executor::block_on;

/// Runs a handler on a type-erased message and waits for its answer, as an
/// actor does.
trait RunHandler {
    fn run(&self, state: &mut u64, message: &BoxedMessage) -> Result<BoxedResponse, ActorError>;
}

impl<F> RunHandler for AsyncHandler<u64, u64, u64, ActorError, F>
where
    F: for<'a> AsyncFunc<'a, u64, u64, u64, ActorError>,
{
    fn run(&self, state: &mut u64, message: &BoxedMessage) -> Result<BoxedResponse, ActorError> {
        match self.start(state, message) {
            Ok(fut) => settle(block_on(fut)),
            Err(e) => Err(e),
        }
    }
}

impl<F> RunHandler for AsyncMutatingHandler<u64, u64, u64, ActorError, F>
where
    F: for<'a> AsyncMutatingFunc<'a, u64, u64, u64, ActorError>,
{
    fn run(&self, state: &mut u64, message: &BoxedMessage) -> Result<BoxedResponse, ActorError> {
        match self.start(state, message) {
            Ok(fut) => settle(block_on(fut)),
            Err(e) => Err(e),
        }
    }
}

impl<F> RunHandler for SyncHandler<u64, u64, u64, ActorError, F>
where
    F: for<'a> actor::handler::SyncFunc<'a, u64, u64, u64, ActorError>,
{
    fn run(&self, state: &mut u64, message: &BoxedMessage) -> Result<BoxedResponse, ActorError> {
        self.handle_sync(state, message)
    }
}

impl<F> RunHandler for SyncMutatingHandler<u64, u64, u64, ActorError, F>
where
    F: for<'a> actor::handler::SyncMutatingFunc<'a, u64, u64, u64, ActorError>,
{
    fn run(&self, state: &mut u64, message: &BoxedMessage) -> Result<BoxedResponse, ActorError> {
        self.handle_sync(state, message)
    }
}

fn as_u64(result: Result<BoxedResponse, ActorError>) -> u64 {
    match result.unwrap().downcast::<u64>() {
        Ok(v) => v,
        Err(_) => panic!("the response is not a u64"),
    }
}

#[test]
fn test_async_non_mutating_message_handler() {
    let mut state = 0u64;
    async fn handler_fn(s: &u64, c: u64) -> Result<u64, ActorError> {
        Ok(s + c)
    }

    let handler = AsyncHandler::new(handler_fn);

    let message = BoxedMessage::new(10u64);
    let result = handler.run(&mut state, &message);

    let result = as_u64(result);
    assert_eq!(result, 10);
}

#[test]
fn test_async_mutating_message_handler() {
    let mut state = 0;
    async fn handler_fn(s: &mut u64, c: u64) -> Result<u64, ActorError> {
        *s += c;
        Ok(*s)
    }

    let handler = AsyncMutatingHandler::new(handler_fn);

    let message = BoxedMessage::new(10u64);
    let result = handler.run(&mut state, &message);
    let result = as_u64(result);
    assert_eq!(result, 10);
}

#[test]
fn test_sync_non_mutating_message_handler() {
    let mut state = 0;
    fn handler_fn(s: &u64, c: u64) -> Result<u64, ActorError> {
        Ok(s + c)
    }

    let handler = SyncHandler::new(handler_fn);

    let message = BoxedMessage::new(10u64);
    let result = handler.run(&mut state, &message);
    let result = as_u64(result);
    assert_eq!(result, 10);
}

#[test]
fn test_sync_mutating_message_handler() {
    let mut state = 0;
    fn handler_fn(s: &mut u64, c: u64) -> Result<u64, ActorError> {
        *s += c;
        Ok(*s)
    }

    let handler = SyncMutatingHandler::new(handler_fn);

    let message = BoxedMessage::new(10u64);
    let result = handler.run(&mut state, &message);
    let result = as_u64(result);
    assert_eq!(result, 10);
}

#[test]
fn test_store_handlers_in_hashmap() {
    let mut state = 0u64;

    async fn async_handler_mut(s: &mut u64, c: u64) -> Result<u64, ActorError> {
        *s += c;
        Ok(*s)
    }

    async fn async_handler_immut(s: &u64, _c: u64) -> Result<u64, ActorError> {
        Ok(*s)
    }

    fn sync_handler_mut(s: &mut u64, c: u64) -> Result<u64, ActorError> {
        *s += c;
        Ok(*s)
    }

    fn sync_handler_immut(s: &u64, _c: u64) -> Result<u64, ActorError> {
        Ok(*s)
    }

    let mut handlers: HashMap<&str, Box<dyn RunHandler>> = HashMap::new();

    handlers.insert(
        "async_mut",
        Box::new(AsyncMutatingHandler::new(async_handler_mut)),
    );
    handlers.insert(
        "async_immut",
        Box::new(AsyncHandler::new(async_handler_immut)),
    );
    handlers.insert(
        "sync_mut",
        Box::new(SyncMutatingHandler::new(sync_handler_mut)),
    );
    handlers.insert("sync_immut", Box::new(SyncHandler::new(sync_handler_immut)));

    let message = BoxedMessage::new(10u64);

    let result = handlers["async_mut"].run(&mut state, &message);
    let result = as_u64(result);
    assert_eq!(result, 10);

    let result = handlers["async_immut"].run(&mut state, &message);
    let result = as_u64(result);
    assert_eq!(result, 10);

    let result = handlers["sync_mut"].run(&mut state, &message);
    let result = as_u64(result);
    assert_eq!(result, 20);

    let result = handlers["sync_immut"].run(&mut state, &message);
    let result = as_u64(result);
    assert_eq!(result, 20);
}

#[test]
fn test_store_sync_handlers_in_hashmap() {
    let mut state = 0u64;

    fn sync_handler_mut(s: &mut u64, c: u64) -> Result<u64, ActorError> {
        *s += c;
        Ok(*s)
    }

    fn sync_handler_immut(s: &u64, c: u64) -> Result<u64, ActorError> {
        Ok(s + c)
    }

    let mut handlers: HashMap<&str, Box<dyn SyncMessageHandler<u64>>> = HashMap::new();

    handlers.insert(
        "sync_mut",
        Box::new(SyncMutatingHandler::new(sync_handler_mut)),
    );
    handlers.insert(
        "sync_immut",
        Box::new(SyncHandler::new(sync_handler_immut)),
    );

    let message = BoxedMessage::new(10u64);

    let result = handlers["sync_mut"].handle_sync(&mut state, &message);
    let result = as_u64(result);
    assert_eq!(result, 10);

    let result = handlers["sync_immut"].handle_sync(&mut state, &message);
    let result = as_u64(result);
    assert_eq!(result, 20);
}

#[test]
fn test_async_non_mutating_func_wrapper() {
    let state = 0;
    async fn handler_fn(s: &u64, c: u64) -> Result<u64, ActorError> {
        Ok(s + c)
    }

    let handler = AsyncHandler::new(handler_fn);

    let result = block_on(handler.call(&state, 10));
    assert_eq!(result.unwrap(), 10);
}

#[test]
fn test_async_mutating_func_wrapper() {
    let mut state = 0;
    async fn handler_fn(s: &mut u64, c: u64) -> Result<u64, ActorError> {
        *s += c;
        Ok(*s)
    }

    let handler = AsyncMutatingHandler::new(handler_fn);

    let result = block_on(handler.call(&mut state, 10));
    assert_eq!(result.unwrap(), 10);
}

#[test]
fn test_sync_non_mutating_func_wrapper() {
    let state = 0;
    fn handler_fn(s: &u64, c: u64) -> Result<u64, ActorError> {
        Ok(s + c)
    }

    let handler = SyncHandler::new(handler_fn);

    let result = handler.call(&state, 10);
    assert_eq!(result.unwrap(), 10);
}

#[test]
fn test_sync_mutating_func_wrapper() {
    let mut state = 0;
    fn handler_fn(s: &mut u64, c: u64) -> Result<u64, ActorError> {
        *s += c;
        Ok(*s)
    }

    let handler = SyncMutatingHandler::new(handler_fn);

    let result = handler.call(&mut state, 10);
    assert_eq!(result.unwrap(), 10);
}
