use crate::callback::Callback;
use crate::state::StreamView;
use std::sync::Arc;
use vstd::prelude::*;

verus! {

/// A new subscription gets an id that no subscriber has, adds exactly one
/// entry to the registry and leaves every other entry as it was. The id it
/// used up is never handed out again: the next one is larger.
pub proof fn lemma_subscribe_adds_one<T>(state: StreamView<T>, callback: Callback<T>)
    requires
        state.wf(),
        state.next_id < u64::MAX,
    ensures
        !state.subscribers.contains_key(state.next_id),
        state.subscribed(callback).wf(),
        state.subscribed(callback).next_id > state.next_id,
        state.subscribed(callback).subscribers.len() == state.subscribers.len() + 1,
        state.subscribed(callback).subscribers[state.next_id] == callback,
        forall|id: u64| #[trigger]
            state.subscribers.contains_key(id) ==> state.subscribed(
                callback,
            ).subscribers.contains_key(id) && state.subscribed(callback).subscribers[id]
                == state.subscribers[id],
{
    let after = state.subscribed(callback);
    assert(after.subscribers.dom() == state.subscribers.dom().insert(state.next_id));
}

/// The end of a subscription takes exactly its own entry out of the registry:
/// every other subscriber stays, with its listener. The count goes down by
/// one if the subscription was there, and stays if it was not.
pub proof fn lemma_unsubscribe_removes_its_own<T>(state: StreamView<T>, id: u64)
    requires
        state.wf(),
    ensures
        state.unsubscribed(id).wf(),
        !state.unsubscribed(id).subscribers.contains_key(id),
        forall|other: u64|
            other != id ==> (#[trigger] state.unsubscribed(id).subscribers.contains_key(other)
                == state.subscribers.contains_key(other)),
        forall|other: u64|
            other != id && #[trigger] state.subscribers.contains_key(other) ==> state.unsubscribed(
                id,
            ).subscribers[other] == state.subscribers[other],
        state.subscribers.contains_key(id) ==> state.unsubscribed(id).subscribers.len()
            == state.subscribers.len() - 1,
        !state.subscribers.contains_key(id) ==> state.unsubscribed(id) == state,
{
    let after = state.unsubscribed(id);
    assert(after.subscribers.dom() == state.subscribers.dom().remove(id));
    if !state.subscribers.contains_key(id) {
        assert(after.subscribers == state.subscribers);
    }
}

/// A subscription that ends at once leaves the registry as it found it. Only
/// the id that it used up is gone for good.
pub proof fn lemma_subscription_that_ends_at_once_restores_the_registry<T>(
    state: StreamView<T>,
    callback: Callback<T>,
)
    requires
        state.wf(),
    ensures
        state.subscribed(callback).unsubscribed(state.next_id).subscribers == state.subscribers,
        state.subscribed(callback).unsubscribed(state.next_id) == (StreamView {
            next_id: state.subscribed(callback).next_id,
            ..state
        }),
{
    assert(state.subscribers.insert(state.next_id, callback).remove(state.next_id)
        == state.subscribers);
}

/// To end several subscriptions is to end them one by one, in any order: to
/// end none changes nothing, and one more is one more single end. Whoever is
/// not among them stays, with its listener; counter, flag and extra fields
/// stay too.
pub proof fn lemma_without_is_one_end_after_another<T>(
    state: StreamView<T>,
    ids: Set<u64>,
    id: u64,
)
    requires
        state.wf(),
    ensures
        state.without(Set::empty()) == state,
        state.without(ids.insert(id)) == state.without(ids).unsubscribed(id),
        state.without(ids).wf(),
        forall|other: u64|
            !ids.contains(other) && #[trigger] state.subscribers.contains_key(other)
                ==> state.without(ids).subscribers.contains_key(other) && state.without(
                ids,
            ).subscribers[other] == state.subscribers[other],
        forall|gone: u64| ids.contains(gone) ==> !(#[trigger] state.without(
            ids,
        ).subscribers.contains_key(gone)),
{
    assert(state.subscribers.remove_keys(Set::empty()) == state.subscribers);
    assert(state.subscribers.remove_keys(ids.insert(id)) == state.subscribers.remove_keys(
        ids,
    ).remove(id));
    assert(state.without(ids).subscribers.dom().subset_of(state.subscribers.dom()));
    vstd::set_lib::lemma_len_subset(
        state.without(ids).subscribers.dom(),
        state.subscribers.dom(),
    );
}

/// To end a subscription twice is to end it once.
pub proof fn lemma_unsubscribe_is_idempotent<T>(state: StreamView<T>, id: u64)
    ensures
        state.unsubscribed(id).unsubscribed(id) == state.unsubscribed(id),
{
    assert(state.subscribers.remove(id).remove(id) == state.subscribers.remove(id));
}

/// A stream whose sink has gone stays without one: no subscription and no
/// end of one brings it back to life, and a second loss changes nothing.
pub proof fn lemma_alive_never_returns<T>(state: StreamView<T>, callback: Callback<T>, id: u64)
    ensures
        state.subscribed(callback).alive == state.alive,
        state.unsubscribed(id).alive == state.alive,
        !state.closed().alive,
        state.closed().closed() == state.closed(),
        state.closed().subscribers == state.subscribers,
{
}

/// Where each of `values` has been delivered on a stream whose subscribers
/// did not change meanwhile, every subscriber has been run on every one of
/// them.
pub proof fn lemma_every_subscriber_handles_every_value<T>(
    state: StreamView<T>,
    values: Seq<Arc<T>>,
)
    requires
        forall|i: int| 0 <= i < values.len() ==> state.delivered(#[trigger] values[i]),
    ensures
        forall|id: u64, i: int|
            state.subscribers.contains_key(id) && 0 <= i < values.len() ==> (
            #[trigger] state.subscribers[id]).handled(#[trigger] values[i]),
{
    assert forall|id: u64, i: int|
        state.subscribers.contains_key(id) && 0 <= i < values.len() implies (
    #[trigger] state.subscribers[id]).handled(#[trigger] values[i]) by {
        assert(state.delivered(values[i]));
    }
}

/// A value that is delivered after a subscription has ended reaches every
/// subscriber but the one that left.
pub proof fn lemma_others_still_receive<T>(state: StreamView<T>, id: u64, value: Arc<T>)
    requires
        state.unsubscribed(id).delivered(value),
    ensures
        forall|other: u64|
            other != id && state.subscribers.contains_key(other) ==> (
            #[trigger] state.subscribers[other]).handled(value),
{
    let after = state.unsubscribed(id);
    assert forall|other: u64|
        other != id && state.subscribers.contains_key(other) implies (
    #[trigger] state.subscribers[other]).handled(value) by {
        assert(after.subscribers.contains_key(other));
        assert(after.subscribers[other] == state.subscribers[other]);
    }
}

} // verus!
