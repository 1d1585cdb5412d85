use crate::end_flag::EndFlag;
use crate::error::StreamError;
use crate::state::{StreamImpl, StreamView};
use crate::stream::{Stream, Subscription};
use std::sync::Arc;
use vstd::prelude::*;

verus! {

// What an operation of a stream answers to what the lock of the stream gave:
// the state, or nothing. An operation that waits for the lock gets nothing
// where a listener has panicked under it. The end of a subscription and the
// end of a sink do not wait: they get nothing too where the lock is held.
// The handles ask for the lock and call these.

/// Brings the state that the lock gave up to date, and hands it on to be
/// read. The subscriptions that have ended while the lock was held by
/// somebody else have left their word in a flag: their listeners are taken
/// out now. The same goes for the sink: `sink_gone` says whether its flag is
/// raised.
pub fn settle<'a, T>(locked: Option<&'a mut StreamImpl<T>>, sink_gone: bool) -> (settled: Option<
    &'a StreamImpl<T>,
>)
    ensures
        match locked {
            Some(state) => {
                &&& settled matches Some(after) && *after == *final(state)
                &&& final(state)@.wf()
                &&& exists|gone: Set<u64>|
                    gone.subset_of(state@.subscribers.dom()) && final(state)@ == (if sink_gone {
                        state@.closed()
                    } else {
                        state@
                    }).without(gone)
            },
            None => settled is None,
        },
{
    match locked {
        Some(state) => {
            if sink_gone {
                state.close();
            }
            state.drop_ended();
            Some(&*state)
        },
        None => None,
    }
}

/// Registers `listener` in the state that the lock gave, and binds the
/// subscription that is returned to the id which the listener got, to the
/// flag of its entry and to `stream`, the handle that the lock belongs to. Fails, and changes nothing,
/// once every id has been handed out. Where the lock gave no state, it is
/// poisoned.
///
/// The end of the subscription takes its id out of the registry of `stream`,
/// whatever state the listener was registered in: a caller hands over the
/// handle whose lock gave `locked`.
pub fn subscribe<T, F>(locked: Option<&mut StreamImpl<T>>, stream: Stream<T>, listener: F) -> (result:
    Result<Subscription<T>, StreamError>) where F: Fn(Arc<T>) + Send + Sync + 'static
    requires
        forall|value: Arc<T>| call_requires(listener, (value,)),
    ensures
        match locked {
            Some(state) => {
                &&& final(state)@.wf()
                &&& match result {
                    Ok(subscription) => {
                        &&& subscription.id() == state@.next_id
                        &&& subscription.stream() == stream
                        &&& subscription.ended() == final(state)@.subscribers[subscription.id()].ended()
                        &&& state@.next_id < u64::MAX
                        &&& !state@.subscribers.contains_key(subscription.id())
                        &&& final(state)@ == state@.subscribed(
                            final(state)@.subscribers[subscription.id()],
                        )
                        &&& forall|value: Arc<T>|
                            final(state)@.subscribers[subscription.id()].handled(value)
                                == call_ensures(listener, (value,), ())
                    },
                    Err(e) => {
                        &&& e == StreamError::Exhausted
                        &&& state@.next_id == u64::MAX
                        &&& *final(state) == *state
                    },
                }
            },
            None => result matches Err(e) && e == StreamError::Poisoned,
        },
{
    match locked {
        Some(state) => {
            let ended = EndFlag::new();
            match state.subscribe_flagged(listener, ended.share()) {
                Ok(id) => Ok(Subscription::new(id, stream, ended)),
                Err(e) => Err(e),
            }
        },
        None => Err(StreamError::Poisoned),
    }
}

/// The number of subscribers of the state that the lock gave. Where the lock
/// gave none, it is poisoned.
pub fn count_subscribers<T>(locked: Option<&StreamImpl<T>>) -> (result: Result<usize, StreamError>)
    ensures
        match locked {
            Some(state) => result matches Ok(count) && count == state@.subscribers.len(),
            None => result matches Err(e) && e == StreamError::Poisoned,
        },
{
    match locked {
        Some(state) => Ok(state.count_subscribers()),
        None => Err(StreamError::Poisoned),
    }
}

/// Whether the state that the lock gave still has its sink. Where the lock
/// gave none, it is poisoned.
pub fn is_alive<T>(locked: Option<&StreamImpl<T>>) -> (result: Result<bool, StreamError>)
    ensures
        match locked {
            Some(state) => result matches Ok(alive) && alive == state@.alive,
            None => result matches Err(e) && e == StreamError::Poisoned,
        },
{
    match locked {
        Some(state) => Ok(state.is_alive()),
        None => Err(StreamError::Poisoned),
    }
}

/// Runs every listener of the state that the lock gave on `value`. Where the
/// lock gave none, it is poisoned, and no listener is run.
pub fn emit_rc<T>(locked: Option<&StreamImpl<T>>, value: Arc<T>) -> (result: Result<
    (),
    StreamError,
>)
    ensures
        match locked {
            Some(state) => result is Ok && state@.delivered(value),
            None => result matches Err(e) && e == StreamError::Poisoned,
        },
{
    match locked {
        Some(state) => {
            state.emit_rc(value);
            Ok(())
        },
        None => Err(StreamError::Poisoned),
    }
}

/// Takes the listener with this id out of the state, if the lock was free
/// and gave it, and says whether it was: where it was not, the listener stays
/// until the state is settled.
pub fn unsubscribe_by_id<T>(free: Option<&mut StreamImpl<T>>, subscription_id: u64) -> (done: bool)
    ensures
        match free {
            Some(state) => {
                &&& done
                &&& final(state)@.wf()
                &&& final(state)@ == state@.unsubscribed(subscription_id)
            },
            None => !done,
        },
    opens_invariants none
    no_unwind
{
    match free {
        Some(state) => {
            state.unsubscribe_by_id(subscription_id);
            true
        },
        None => false,
    }
}

/// Records in the state that the sink is gone, if the lock was free and gave
/// the state, and says whether it was: where it was not, the record is made
/// when the state is settled.
pub fn close<T>(free: Option<&mut StreamImpl<T>>) -> (done: bool)
    ensures
        match free {
            Some(state) => {
                &&& done
                &&& final(state)@.wf()
                &&& final(state)@ == state@.closed()
            },
            None => !done,
        },
    opens_invariants none
    no_unwind
{
    match free {
        Some(state) => {
            state.close();
            true
        },
        None => false,
    }
}

/// Runs `cb` on the extra fields of the state that the lock gave, taken to be
/// of type `X`. Fails, without a call of `cb`, where the state has no extra
/// fields; fails too where they are of another type. Where the lock gave no
/// state, it is poisoned.
pub fn read_extra_fields<T, X, R, F>(locked: Option<&StreamImpl<T>>, cb: F) -> (result: Result<
    R,
    StreamError,
>) where X: 'static, F: FnOnce(&X) -> R
    requires
        forall|fields: &X| call_requires(cb, (fields,)),
    ensures
        match locked {
            Some(state) => match result {
                Ok(value) => state@.has_extra_fields() && exists|fields: &X|
                    call_ensures(cb, (fields,), value),
                Err(e) => e == StreamError::InvalidExtraFields,
            },
            None => result matches Err(e) && e == StreamError::Poisoned,
        },
{
    match locked {
        Some(state) => if state.has_extra_fields() {
            state.read_extra_fields(cb)
        } else {
            Err(StreamError::InvalidExtraFields)
        },
        None => Err(StreamError::Poisoned),
    }
}

/// Runs `cb` on the extra fields of the state that the lock gave, taken to be
/// of type `X`, with the right to change them. Fails, without a call of `cb`
/// and without a change, where the state has no extra fields; fails too where
/// they are of another type. Nothing but the extra fields is touched. Where
/// the lock gave no state, it is poisoned.
pub fn mutate_extra_fields<T, X, F>(locked: Option<&mut StreamImpl<T>>, cb: F) -> (result: Result<
    (),
    StreamError,
>) where X: 'static, F: FnOnce(&mut X)
    requires
        forall|fields: &mut X| call_requires(cb, (fields,)),
    ensures
        match locked {
            Some(state) => {
                &&& final(state)@.wf()
                &&& final(state)@ == (StreamView {
                    extra_fields: final(state)@.extra_fields,
                    ..state@
                })
                &&& final(state)@.has_extra_fields() == state@.has_extra_fields()
                &&& !state@.has_extra_fields() ==> *final(state) == *state
                &&& match result {
                    Ok(_) => state@.has_extra_fields() && exists|fields: &mut X|
                        call_ensures(cb, (fields,), ()),
                    Err(e) => e == StreamError::InvalidExtraFields && *final(state) == *state,
                }
            },
            None => result matches Err(e) && e == StreamError::Poisoned,
        },
{
    match locked {
        Some(state) => {
            proof {
                use_type_invariant(&*state);
            }
            if state.has_extra_fields() {
                state.mutate_extra_fields(cb)
            } else {
                Err(StreamError::InvalidExtraFields)
            }
        },
        None => Err(StreamError::Poisoned),
    }
}

} // verus!
