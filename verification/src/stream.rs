use crate::error::StreamError;
use crate::end_flag::EndFlag;
use crate::lock::{acquire, state_of, state_of_mut, try_acquire};
use crate::locked;
use crate::sink::Sink;
use crate::state::StreamImpl;
use std::sync::{Arc, Mutex};
use vstd::prelude::*;

verus! {

/// The read handle of a stream. Clones of one handle, the sink that the stream
/// came from and the subscriptions to it all share one state, which lives as
/// long as the last of them.
///
/// In contracts a handle is equal to its clones.
#[verifier::reject_recursive_types(T)]
pub struct Stream<T> {
    pointer: Arc<Shared<T>>,
}

/// What the handles of one stream share: the state under its lock, and
/// beside the lock the flag that the sink raises when it goes.
#[verifier::reject_recursive_types(T)]
struct Shared<T> {
    state: Mutex<StreamImpl<T>>,
    sink_gone: EndFlag,
}

/// A listener's registration on a stream. Dropping it, at the end of a scope
/// or by `Stream::unsubscribe`, ends the registration: the listener is run on
/// no value that is emitted later.
#[verifier::reject_recursive_types(T)]
pub struct Subscription<T> {
    id: u64,
    stream: Stream<T>,
    ended: EndFlag,
}

impl<T> Clone for Stream<T> {
    /// Another handle to the same state.
    fn clone(&self) -> (copy: Self)
        ensures
            copy == *self,
    {
        Stream { pointer: Arc::clone(&self.pointer) }
    }
}

impl<T> Subscription<T> {
    /// The id under which the listener was registered: the one that the end
    /// of the subscription takes out of the registry.
    pub closed spec fn id(&self) -> u64 {
        self.id
    }

    /// The stream that the listener was registered on.
    pub closed spec fn stream(&self) -> Stream<T> {
        self.stream
    }

    /// The flag that the subscription raises when it ends: that of the
    /// listener's entry in the registry.
    pub closed spec fn ended(&self) -> EndFlag {
        self.ended
    }

    /// The subscription of the listener that `stream` has registered under
    /// `id`, with the flag `ended`. It must be made once for each
    /// registration, when that is done: its end raises the flag and takes
    /// `id` out of the registry of `stream`.
    pub(crate) fn new(id: u64, stream: Stream<T>, ended: EndFlag) -> (subscription: Self)
        ensures
            subscription.id() == id,
            subscription.stream() == stream,
            subscription.ended() == ended,
    {
        Subscription { id, stream, ended }
    }
}

impl<T> Stream<T> {
    /// A stream with a state of its own, which has no subscribers and no
    /// extra fields: `StreamImpl::new()`, put under a new lock. What is under
    /// a lock is out of a contract's reach, so none is given.
    pub(crate) fn new() -> (stream: Self) {
        Stream {
            pointer: Arc::new(
                Shared { state: Mutex::new(StreamImpl::new()), sink_gone: EndFlag::new() },
            ),
        }
    }

    /// A stream with a state of its own, which has no subscribers and keeps
    /// `fields` for as long as it lives: `StreamImpl::new_with_fields(fields)`,
    /// put under a new lock. What is under a lock is out of a contract's
    /// reach, so none is given.
    pub fn new_with_fields<X>(fields: X) -> (stream: Self) where X: Send + Sync + 'static {
        Stream {
            pointer: Arc::new(
                Shared {
                    state: Mutex::new(StreamImpl::new_with_fields(fields)),
                    sink_gone: EndFlag::new(),
                },
            ),
        }
    }

    /// Registers `listener`, which is from then on run on every value that
    /// the stream emits, until the subscription that is returned is dropped.
    ///
    /// A listener must not subscribe to, emit on or put a question to the
    /// stream that runs it: the stream is locked while its listeners run, and
    /// such a call would wait for the lock forever. It may end a subscription
    /// to that stream, also its own, and may drop the sink: neither waits for
    /// the lock.
    ///
    /// It is `locked::subscribe` on what the lock gives: that function states
    /// which id the subscription is bound to, and when the call fails.
    pub fn subscribe<F>(&self, listener: F) -> (result: Result<Subscription<T>, StreamError>) where
        F: Fn(Arc<T>) + Send + Sync + 'static,

        requires
            forall|value: Arc<T>| call_requires(listener, (value,)),
        ensures
            match result {
                Ok(subscription) => subscription.stream() == *self,
                Err(e) => e == StreamError::Poisoned || e == StreamError::Exhausted,
            },
    {
        let mut lock = acquire(&self.pointer.state);
        locked::subscribe(state_of_mut(&mut lock), self.clone(), listener)
    }

    /// Ends `subscription`. Letting a subscription go out of scope does the
    /// same.
    pub fn unsubscribe(&self, _subscription: Subscription<T>) {
    }

    /// Forwards every value that this stream emits into `sink`, until the
    /// subscription that is returned is dropped. Neither end is changed
    /// otherwise. A value that arrives while the stream of `sink` is poisoned
    /// is dropped.
    pub fn pipe_into(&self, sink: &Sink<T>) -> (result: Result<Subscription<T>, StreamError>) where
        T: 'static,

        ensures
            match result {
                Ok(subscription) => subscription.stream() == *self,
                Err(e) => e == StreamError::Poisoned || e == StreamError::Exhausted,
            },
    {
        let stream = sink.get_stream();
        self.subscribe(
            move |item: Arc<T>|
                {
                    let _ = stream.emit_rc(item);
                },
        )
    }

    /// The number of listeners that are subscribed to the stream now: what
    /// `locked::count_subscribers` answers to what the lock gives.
    pub fn count_subscribers(&self) -> (result: Result<usize, StreamError>)
        ensures
            result matches Err(e) ==> e == StreamError::Poisoned,
    {
        let mut lock = acquire(&self.pointer.state);
        let sink_gone = self.pointer.sink_gone.is_raised();
        locked::count_subscribers(locked::settle(state_of_mut(&mut lock), sink_gone))
    }

    /// Takes the listener with this id out of the registry, if the lock is
    /// free, and says whether it was. Only the end of a subscription calls
    /// it, which may not wait for the lock. It is `locked::unsubscribe_by_id`
    /// on what the lock gives.
    fn unsubscribe_by_id(&self, subscription_id: u64) -> (done: bool)
        opens_invariants none
        no_unwind
    {
        let mut lock = try_acquire(&self.pointer.state);
        locked::unsubscribe_by_id(state_of_mut(&mut lock), subscription_id)
    }

    /// Whether the sink of this stream is still there: what
    /// `locked::is_alive` answers to what the lock gives.
    pub fn is_alive(&self) -> (result: Result<bool, StreamError>)
        ensures
            result matches Err(e) ==> e == StreamError::Poisoned,
    {
        let mut lock = acquire(&self.pointer.state);
        let sink_gone = self.pointer.sink_gone.is_raised();
        locked::is_alive(locked::settle(state_of_mut(&mut lock), sink_gone))
    }

    /// Records that the sink of this stream is gone: raises the sink's flag,
    /// and makes the record in the state at once if the lock is free. Only
    /// the end of a sink calls it, which may not wait for the lock. The
    /// second step is `locked::close` on what the lock gives.
    pub(crate) fn close(&self) -> (done: bool)
        opens_invariants none
        no_unwind
    {
        self.pointer.sink_gone.raise();
        let mut lock = try_acquire(&self.pointer.state);
        locked::close(state_of_mut(&mut lock))
    }

    /// Runs `cb` on the extra fields of the stream, taken to be of type `X`.
    /// Fails where the stream has no extra fields or they are of another
    /// type. The stream is locked while `cb` runs. It is
    /// `locked::read_extra_fields` on what the lock gives.
    pub fn read_extra_fields<X, R, F>(&self, cb: F) -> (result: Result<R, StreamError>) where
        X: 'static,
        F: FnOnce(&X) -> R,

        requires
            forall|fields: &X| call_requires(cb, (fields,)),
        ensures
            match result {
                Ok(value) => exists|fields: &X| call_ensures(cb, (fields,), value),
                Err(e) => e == StreamError::Poisoned || e == StreamError::InvalidExtraFields,
            },
    {
        let lock = acquire(&self.pointer.state);
        locked::read_extra_fields(state_of(&lock), cb)
    }

    /// Runs `cb` on the extra fields of the stream, taken to be of type `X`,
    /// with the right to change them. Fails where the stream has no extra
    /// fields or they are of another type. The stream is locked while `cb`
    /// runs. It is `locked::mutate_extra_fields` on what the lock gives.
    pub fn mutate_extra_fields<X, F>(&self, cb: F) -> (result: Result<(), StreamError>) where
        X: 'static,
        F: FnOnce(&mut X),

        requires
            forall|fields: &mut X| call_requires(cb, (fields,)),
        ensures
            match result {
                Ok(_) => exists|fields: &mut X| call_ensures(cb, (fields,), ()),
                Err(e) => e == StreamError::Poisoned || e == StreamError::InvalidExtraFields,
            },
    {
        let mut lock = acquire(&self.pointer.state);
        locked::mutate_extra_fields(state_of_mut(&mut lock), cb)
    }

    /// Runs every subscribed listener on `value`, in the order in which they
    /// subscribed, and returns when the last one has returned. The stream is
    /// locked for the whole of it. It is `locked::emit_rc` on what the lock
    /// gives.
    pub(crate) fn emit_rc(&self, value: Arc<T>) -> (result: Result<(), StreamError>)
        ensures
            result matches Err(e) ==> e == StreamError::Poisoned,
    {
        let mut lock = acquire(&self.pointer.state);
        let sink_gone = self.pointer.sink_gone.is_raised();
        locked::emit_rc(locked::settle(state_of_mut(&mut lock), sink_gone), value)
    }
}

impl<T> Drop for Subscription<T> {
    /// Ends the subscription. It raises the flag of the listener's entry,
    /// and takes the entry out of the registry at once if the lock of the
    /// stream is free. If the lock is held, the entry goes when the holder
    /// has let go: before the next emission, and before the next count.
    fn drop(&mut self)
        opens_invariants none
        no_unwind
    {
        self.ended.raise();
        let _ = self.stream.unsubscribe_by_id(self.id);
    }
}

} // verus!
