# actor

A small actor library. An actor owns a state and a table of handlers, each
registered under a string key; messages reach it through an unbounded mailbox
as notifications (no answer) or requests (answered through a one-shot
channel).

Layout:

- `src/` — the library, verified with Verus:
  - `key.rs`: `MessageKey`, the name a handler is registered under.
  - `error.rs`: `ActorError`, `ActionError` and their texts.
  - `erased.rs`, `message.rs`: type-erased messages and responses
    (`BoxedMessage`, `BoxedResponse`) and asking them for their type.
  - `handler.rs`: the four kinds of handler (reading or changing the state,
    answering at once or through a future) and what they answer.
  - `registry.rs`: `HandlerRegistry`, the map from keys to handlers.
  - `dispatcher.rs`: the `Dispatcher` trait and `ActionDispatcher`.
  - `channel.rs`: the channels of `futures` that the mailbox is made of.
  - `actor.rs`: the mailbox, what the actor does with each message, how a
    request is finished, and the decisions of spawning.
  - `laws.rs`: properties that relate several operations.
- `app/` — the runtime around it: the actor's thread and executor, the locks,
  async handler calls, `ActorRef`, `ActorBuilder`, acting through an
  `ActionDispatcher`.
- `tests/` — tests of the library.
