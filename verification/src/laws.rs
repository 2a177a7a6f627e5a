use vstd::prelude::*;
use crate::key::MessageKey;
use crate::registry::HandlerRegistry;

verus! {

/// Once `handler` is registered under `key` (`after` is `before` with that
/// registration), it is the handler found under `key`, so that `route` runs
/// it for every message sent under `key`; every other key keeps the handler
/// it had, or stays without one.
pub proof fn law_register_then_lookup<H>(
    before: HandlerRegistry<H>,
    after: HandlerRegistry<H>,
    key: MessageKey,
    handler: H,
    other: MessageKey,
)
    requires
        after@ == before@.insert(key@, handler),
    ensures
        after@.contains_key(key@),
        after@[key@] == handler,
        other@ != key@ ==> after@.contains_key(other@) == before@.contains_key(other@),
        other@ != key@ && before@.contains_key(other@) ==> after@[other@] == before@[other@],
{
}

/// Registering `first` and then `second` under one key leaves the handlers
/// as registering `second` alone would: the last registration wins.
pub proof fn law_last_registration_wins<H>(
    before: HandlerRegistry<H>,
    middle: HandlerRegistry<H>,
    after: HandlerRegistry<H>,
    alone: HandlerRegistry<H>,
    key: MessageKey,
    first: H,
    second: H,
)
    requires
        middle@ == before@.insert(key@, first),
        after@ == middle@.insert(key@, second),
        alone@ == before@.insert(key@, second),
    ensures
        after@ == alone@,
{
    assert(after@ =~= alone@);
}

} // verus!
