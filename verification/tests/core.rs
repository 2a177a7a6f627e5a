use actor::actor::{
    actor_name, complete_ask, missing_state_init, no_handler_answer, received_reply, refuse,
    notification_for, reply_to, request_for, route, run_outcome, send_outcome, spawn_outcome,
    typed_reply, ActorMessage, Delivery, Mailbox, Reply, ReplyAction,
};
use actor::dispatcher::{ActionDispatcher, Dispatcher};
use actor::error::{ActionError, ActorError, ErrorText};
use actor::handler::{lift_result, settle, SyncHandler, SyncMessageHandler, SyncMutatingHandler};
use actor::key::MessageKey;
use actor::message::{BoxedMessage, BoxedResponse, ResponseDowncast};
use actor::registry::HandlerRegistry;
use futures::executor::block_on;
use futures::StreamExt;

struct Bump(u64);

#[derive(Clone)]
struct Add(u64);

fn response_u64(r: BoxedResponse) -> u64 {
    match r.downcast::<u64>() {
        Ok(v) => v,
        Err(_) => panic!("not a u64"),
    }
}

#[test]
fn message_key_keeps_its_name() {
    let key = MessageKey::new("test_key");
    assert_eq!(key.0, "test_key");
    assert_eq!(key.as_str(), "test_key");
    assert!(key == MessageKey::new("test_key"));
    assert!(key != MessageKey::new("other"));
    assert!(key.same(&key.clone()));
}

#[test]
fn boxed_message_downcasts_to_its_own_type_only() {
    let boxed = BoxedMessage::new(String::from("Hello, world!"));
    assert_eq!(boxed.downcast::<String>().map(|s| s.as_str()), Some("Hello, world!"));
    assert!(boxed.downcast::<u64>().is_none());
    assert!(actor::message::MessageDowncast::is::<String>(&boxed));
    assert!(!actor::message::MessageDowncast::is::<u32>(&boxed));
    let back = match actor::message::MessageDowncast::downcast::<u64>(boxed) {
        Ok(_) => panic!("a String is not a u64"),
        Err(back) => back,
    };
    let value: String = actor::message::MessageDowncast::downcast::<String>(back).ok().unwrap();
    assert_eq!(value, "Hello, world!");
}

#[test]
fn boxed_response_downcasts_to_its_own_type_only() {
    let boxed = BoxedResponse::new(7i32);
    assert_eq!(ResponseDowncast::downcast_ref::<i32>(&boxed), Some(&7));
    assert!(!ResponseDowncast::is::<i64>(&boxed));
    assert!(ResponseDowncast::is::<i32>(&boxed));
}

#[test]
fn errors_describe_themselves() {
    assert_eq!(ActorError::HandlerNotFound.describe(), "Handler not found");
    assert_eq!(ActorError::CustomError("boom".into()).describe(), "Custom error: boom");
    assert_eq!(ActorError::SendError.describe(), "Failed to send message");
    assert_eq!(ActorError::DispatchError.describe(), "Failed to dispatch message");
    assert_eq!(ActorError::SpawnError("late".into()).describe(), "Failed to spawn actor: late");
    assert_eq!(ActorError::DowncastError.describe(), "Failed to downcast response");
    assert_eq!(ActorError::HandlerPanicked.describe(), "Handler panicked");
    assert_eq!(ActionError("bad action".into()).describe(), "bad action");
    assert_eq!(ActionError("bad action".into()).error_text(), "bad action");
    assert_eq!(ActorError::SendError.error_text(), "Failed to send message");
    assert_eq!(std::fmt::Error.error_text(), "an error occurred when formatting an argument");
}

#[test]
fn failures_of_handler_functions_become_custom_errors() {
    let ok: Result<u8, ActorError> = Ok(3);
    assert_eq!(lift_result(ok).unwrap(), 3);
    let failed: Result<u8, ActorError> = Err(ActorError::DispatchError);
    match lift_result(failed) {
        Err(ActorError::CustomError(text)) => assert_eq!(text, "Failed to dispatch message"),
        _ => panic!("expected a custom error"),
    }
    let failed: Result<u8, ActionError> = Err(ActionError("nope".into()));
    match settle(failed) {
        Err(ActorError::CustomError(text)) => assert_eq!(text, "nope"),
        _ => panic!("expected a custom error"),
    }
    let fine: Result<u8, ActionError> = Ok(9);
    assert_eq!(ResponseDowncast::downcast::<u8>(settle(fine).unwrap()).ok(), Some(9));
}

#[test]
fn registry_finds_what_was_registered_last() {
    let mut registry: HandlerRegistry<&str> = HandlerRegistry::new();
    assert_eq!(registry.len(), 0);
    assert!(registry.get(&MessageKey::new("a")).is_none());
    registry.insert(MessageKey::new("a"), "first");
    registry.insert(MessageKey::new("b"), "second");
    assert_eq!(registry.len(), 2);
    assert_eq!(registry.get(&MessageKey::new("a")), Some(&"first"));
    registry.insert(MessageKey::new("a"), "third");
    assert_eq!(registry.len(), 2);
    assert_eq!(registry.get(&MessageKey::new("a")), Some(&"third"));
    assert_eq!(registry.get(&MessageKey::new("b")), Some(&"second"));
    assert!(registry.contains_key(&MessageKey::new("b")));
    assert!(!registry.contains_key(&MessageKey::new("c")));
}

#[test]
fn handlers_reject_messages_of_another_type_and_keep_the_state() {
    fn add(s: &mut u64, c: Add) -> Result<u64, ActorError> {
        *s += c.0;
        Ok(*s)
    }
    let handler = SyncMutatingHandler::new(add);
    let mut state = 5u64;
    let wrong = BoxedMessage::new(Bump(1));
    assert!(matches!(handler.handle_sync(&mut state, &wrong), Err(ActorError::DispatchError)));
    assert_eq!(state, 5);
    assert!(matches!(handler.invoke(&mut state, None), Err(ActorError::DispatchError)));
    assert_eq!(state, 5);
    let right = BoxedMessage::new(Add(2));
    assert_eq!(response_u64(handler.handle_sync(&mut state, &right).unwrap()), 7);
    assert_eq!(state, 7);
    assert_eq!(handler.invoke(&mut state, Some(Add(3))).unwrap(), 10);
}

#[test]
fn failing_handlers_answer_with_the_error_text() {
    fn refuse_all(_s: &u64, _c: Add) -> Result<u64, ActionError> {
        Err(ActionError("refused".into()))
    }
    let handler = SyncHandler::new(refuse_all);
    let mut state = 1u64;
    match handler.handle_sync(&mut state, &BoxedMessage::new(Add(1))) {
        Err(ActorError::CustomError(text)) => assert_eq!(text, "refused"),
        _ => panic!("expected a custom error"),
    }
    assert_eq!(state, 1);
}

#[test]
fn action_dispatcher_accepts_only_its_key_and_its_actions() {
    let dispatcher: ActionDispatcher<Add, ()> = ActionDispatcher::new(MessageKey::new("action"), ());
    assert_eq!(dispatcher.key().as_str(), "action");
    let key = dispatcher.message_key(&BoxedMessage::new(Add(1))).unwrap();
    assert_eq!(key.as_str(), "action");
    assert!(matches!(
        dispatcher.message_key(&BoxedMessage::new(Bump(1))),
        Err(ActorError::HandlerNotFound)
    ));
    let wrapped = dispatcher.wrap(BoxedMessage::new(Add(4)), key.clone()).unwrap();
    assert_eq!(wrapped.downcast::<Add>().map(|a| a.0), Some(4));
    assert!(matches!(
        dispatcher.wrap(BoxedMessage::new(Add(4)), MessageKey::new("other")),
        Err(ActorError::HandlerNotFound)
    ));
    let unwrapped = dispatcher.unwrap(BoxedResponse::new(11u64), key).unwrap();
    assert_eq!(response_u64(unwrapped), 11);
    assert!(matches!(
        dispatcher.unwrap(BoxedResponse::new(11u64), MessageKey::new("other")),
        Err(ActorError::HandlerNotFound)
    ));
    assert!(matches!(dispatcher.key_for(false), Err(ActorError::HandlerNotFound)));
}

#[test]
fn actor_messages_describe_their_kind_and_key() {
    let note = ActorMessage::Notification(MessageKey::new("inc"), BoxedMessage::new(1u8));
    assert_eq!(note.describe(), "Notification { key: MessageKey(\"inc\") }");
    assert_eq!(note.key().as_str(), "inc");
    let (sender, _receiver) = futures::channel::oneshot::channel();
    let request = ActorMessage::Request(MessageKey::new("get"), BoxedMessage::new(1u8), sender);
    assert_eq!(request.describe(), "Request { key: MessageKey(\"get\"), sender: \"Sender\" }");
}

#[test]
fn actor_messages_show_keys_as_debug_does() {
    let note = ActorMessage::Notification(MessageKey::new("a\"b\\c\n"), BoxedMessage::new(1u8));
    assert_eq!(note.describe(), "Notification { key: MessageKey(\"a\\\"b\\\\c\\n\") }");
    assert_eq!(note.describe(), format!("Notification {{ key: {:?} }}", MessageKey::new("a\"b\\c\n")));
}

#[test]
fn route_runs_registered_handlers_and_refuses_the_rest() {
    let mut registry: HandlerRegistry<u32> = HandlerRegistry::new();
    registry.insert(MessageKey::new("known"), 42);

    let note = ActorMessage::Notification(MessageKey::new("known"), BoxedMessage::new(1u8));
    match route(&registry, note) {
        Delivery::Run { key, handler, payload, reply } => {
            assert_eq!(key.as_str(), "known");
            assert_eq!(*handler, 42);
            assert_eq!(payload.downcast::<u8>(), Some(&1));
            assert!(reply.is_none());
        }
        Delivery::NoHandler { .. } => panic!("the key is registered"),
    }

    let (sender, receiver) = futures::channel::oneshot::channel();
    let request = ActorMessage::Request(MessageKey::new("unknown"), BoxedMessage::new(1u8), sender);
    match route(&registry, request) {
        Delivery::NoHandler { key, reply } => {
            assert_eq!(key.as_str(), "unknown");
            assert!(reply.is_some());
            match refuse(reply) {
                ReplyAction::Send(sender, answer) => {
                    assert!(matches!(answer, Err(ActorError::HandlerNotFound)));
                    assert!(sender.send(answer).is_ok());
                }
                ReplyAction::Keep(_) => panic!("a request is answered"),
            }
        }
        Delivery::Run { .. } => panic!("the key is not registered"),
    }
    let answer = block_on(receiver).unwrap();
    assert!(matches!(answer, Err(ActorError::HandlerNotFound)));

    let note = ActorMessage::Notification(MessageKey::new("unknown"), BoxedMessage::new(1u8));
    match route(&registry, note) {
        Delivery::NoHandler { reply, .. } => {
            assert!(matches!(refuse(reply), ReplyAction::Keep(Err(ActorError::HandlerNotFound))));
        }
        Delivery::Run { .. } => panic!("the key is not registered"),
    }
    assert!(matches!(no_handler_answer(), Err(ActorError::HandlerNotFound)));
}

#[test]
fn answers_go_to_the_asker_or_are_kept() {
    let (sender, receiver) = futures::channel::oneshot::channel();
    match reply_to(Some(sender), Ok(BoxedResponse::new(3u64))) {
        ReplyAction::Send(sender, answer) => assert!(sender.send(answer).is_ok()),
        ReplyAction::Keep(_) => panic!("a request is answered"),
    }
    assert_eq!(response_u64(block_on(receiver).unwrap().unwrap()), 3);

    let (sender, receiver) = futures::channel::oneshot::channel::<Reply>();
    drop(receiver);
    match reply_to(Some(sender), Err(ActorError::DowncastError)) {
        ReplyAction::Send(sender, answer) => {
            assert!(matches!(answer, Err(ActorError::DowncastError)));
            assert!(matches!(sender.send(answer), Err(Err(ActorError::DowncastError))));
        }
        ReplyAction::Keep(_) => panic!("a request is answered"),
    }
    assert!(matches!(reply_to(None, Err(ActorError::SendError)), ReplyAction::Keep(Err(ActorError::SendError))));
    assert!(matches!(reply_to(None, Ok(BoxedResponse::new(1u8))), ReplyAction::Keep(Ok(_))));
}

#[test]
fn sends_into_a_closed_mailbox_fail_with_send_error() {
    let (sender, receiver) = futures::channel::mpsc::unbounded::<u8>();
    assert!(send_outcome(sender.unbounded_send(1)).is_ok());
    drop(receiver);
    assert!(matches!(send_outcome(sender.unbounded_send(2)), Err(ActorError::SendError)));
}

#[test]
fn messages_are_built_under_the_dispatcher_key() {
    let dispatcher: ActionDispatcher<Add, ()> = ActionDispatcher::new(MessageKey::new("act"), ());
    match notification_for(&dispatcher, BoxedMessage::new(Add(4))).unwrap() {
        ActorMessage::Notification(key, payload) => {
            assert_eq!(key.as_str(), "act");
            assert_eq!(payload.downcast::<Add>().map(|a| a.0), Some(4));
        }
        ActorMessage::Request(..) => panic!("expected a notification"),
    }
    assert!(matches!(
        notification_for(&dispatcher, BoxedMessage::new(Bump(4))),
        Err(ActorError::HandlerNotFound)
    ));
    let (sender, receiver) = futures::channel::oneshot::channel::<Reply>();
    match request_for(&dispatcher, BoxedMessage::new(Add(6)), sender).unwrap() {
        ActorMessage::Request(key, payload, reply) => {
            assert_eq!(key.as_str(), "act");
            assert_eq!(payload.downcast::<Add>().map(|a| a.0), Some(6));
            assert!(reply.send(Ok(BoxedResponse::new(6u64))).is_ok());
        }
        ActorMessage::Notification(..) => panic!("expected a request"),
    }
    assert_eq!(response_u64(block_on(receiver).unwrap().unwrap()), 6);
    let (sender, _receiver) = futures::channel::oneshot::channel::<Reply>();
    assert!(matches!(
        request_for(&dispatcher, BoxedMessage::new(Bump(6)), sender),
        Err(ActorError::HandlerNotFound)
    ));
}

#[test]
fn mailbox_tell_and_ask_post_under_the_dispatcher_key() {
    let (mut mailbox, mut receiver) = Mailbox::open();
    let dispatcher: ActionDispatcher<Add, ()> = ActionDispatcher::new(MessageKey::new("act"), ());
    mailbox.tell(&dispatcher, BoxedMessage::new(Add(1))).unwrap();
    assert!(matches!(
        mailbox.tell(&dispatcher, BoxedMessage::new(Bump(1))),
        Err(ActorError::HandlerNotFound)
    ));
    let pending = mailbox.clone_handle().ask(&dispatcher, BoxedMessage::new(Add(2))).unwrap();
    assert_eq!(pending.key.as_str(), "act");

    let first = block_on(receiver.next()).unwrap();
    assert_eq!(first.describe(), "Notification { key: MessageKey(\"act\") }");
    let second = block_on(receiver.next()).unwrap();
    match second {
        ActorMessage::Request(key, payload, reply) => {
            assert_eq!(key.as_str(), "act");
            assert_eq!(payload.downcast::<Add>().map(|a| a.0), Some(2));
            match reply_to(Some(reply), Ok(BoxedResponse::new(5u64))) {
                ReplyAction::Send(sender, answer) => assert!(sender.send(answer).is_ok()),
                ReplyAction::Keep(_) => panic!("a request is answered"),
            }
        }
        ActorMessage::Notification(..) => panic!("expected a request"),
    }
    let received = block_on(pending.receiver).ok();
    let value: u64 = complete_ask(&dispatcher, pending.key, received).unwrap();
    assert_eq!(value, 5);

    drop(receiver);
    assert!(matches!(mailbox.post(ActorMessage::Notification(MessageKey::new("act"), BoxedMessage::new(Add(1)))), Err(ActorError::SendError)));
    assert!(matches!(mailbox.tell(&dispatcher, BoxedMessage::new(Add(1))), Err(ActorError::SendError)));
}

#[test]
fn asks_finish_with_the_answer_or_why_there_is_none() {
    let dispatcher: ActionDispatcher<Add, ()> = ActionDispatcher::new(MessageKey::new("k"), ());
    let r: Result<u64, ActorError> = complete_ask(&dispatcher, MessageKey::new("k"), None);
    assert!(matches!(r, Err(ActorError::SendError)));
    let r: Result<u64, ActorError> = complete_ask(&dispatcher, MessageKey::new("k"), Some(Err(ActorError::DispatchError)));
    assert!(matches!(r, Err(ActorError::DispatchError)));
    let r: Result<String, ActorError> = complete_ask(&dispatcher, MessageKey::new("k"), Some(Ok(BoxedResponse::new(1u64))));
    assert!(matches!(r, Err(ActorError::DowncastError)));
    let r: Result<u64, ActorError> = complete_ask(&dispatcher, MessageKey::new("other"), Some(Ok(BoxedResponse::new(1u64))));
    assert!(matches!(r, Err(ActorError::HandlerNotFound)));
    assert!(matches!(received_reply(None), Err(ActorError::SendError)));
    let t: Result<u64, ActorError> = typed_reply(Ok(BoxedResponse::new(8u64)));
    assert_eq!(t.unwrap(), 8);
}

#[test]
fn spawn_decisions() {
    assert_eq!(actor_name(None), "actor");
    assert_eq!(actor_name(Some("worker".to_string())), "worker");
    match missing_state_init() {
        ActorError::SpawnError(text) => assert_eq!(text, "init_state function must be provided"),
        _ => panic!("expected a spawn error"),
    }
    let ok: Result<Result<u8, ActorError>, String> = Ok(Ok(1));
    assert_eq!(spawn_outcome(ok).unwrap(), 1);
    let late: Result<Result<u8, ActorError>, String> = Err("timed out waiting on channel".to_string());
    match spawn_outcome(late) {
        Err(ActorError::SpawnError(text)) => assert_eq!(text, "timed out waiting on channel"),
        _ => panic!("expected a spawn error"),
    }
    let failed: Result<Result<u8, ActorError>, String> = Ok(Err(ActorError::CustomError("no db".into())));
    match spawn_outcome(failed) {
        Err(ActorError::SpawnError(text)) => assert_eq!(text, "Custom error: no db"),
        _ => panic!("expected a spawn error"),
    }
    assert!(matches!(run_outcome(true), Err(ActorError::HandlerPanicked)));
    assert!(run_outcome(false).is_ok());
}

#[test]
fn dyn_sync_handlers_report_only_handler_errors() {
    fn get(s: &u64, _c: Add) -> Result<u64, ActorError> {
        Ok(*s)
    }
    let handlers: Vec<Box<dyn SyncMessageHandler<u64>>> = vec![Box::new(SyncHandler::new(get))];
    let mut state = 3;
    assert_eq!(response_u64(handlers[0].handle_sync(&mut state, &BoxedMessage::new(Add(0))).unwrap()), 3);
    assert!(matches!(handlers[0].handle_sync(&mut state, &BoxedMessage::new(0u8)), Err(ActorError::DispatchError)));
}

#[test]
fn registering_an_action_dispatcher_agrees_on_the_key() {
    let mut registry: HandlerRegistry<&str> = HandlerRegistry::new();
    let dispatcher: ActionDispatcher<Add, u8> =
        ActionDispatcher::register_in(&mut registry, MessageKey::new("act"), "handler", 7u8);
    assert_eq!(dispatcher.key().as_str(), "act");
    assert_eq!(*dispatcher.actor(), 7);
    assert_eq!(registry.get(&MessageKey::new("act")), Some(&"handler"));
    assert_eq!(dispatcher.message_key(&BoxedMessage::new(Add(1))).unwrap().as_str(), "act");
}
