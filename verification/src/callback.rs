use crate::end_flag::EndFlag;
use std::sync::Arc;
use vstd::prelude::*;

verus! {

/// What a stream needs from a listener: that it can be run on a shared value,
/// from any thread.
trait Listener<T>: Send + Sync {
    /// Whether the listener may be run on `value`.
    spec fn accepts(&self, value: Arc<T>) -> bool;

    /// What is known once the listener has returned from a run on `value`.
    spec fn handled(&self, value: Arc<T>) -> bool;

    fn notify(&self, value: Arc<T>)
        requires
            self.accepts(value),
        ensures
            self.handled(value),
    ;
}

impl<T, F: Fn(Arc<T>) + Send + Sync> Listener<T> for F {
    spec fn accepts(&self, value: Arc<T>) -> bool {
        call_requires(*self, (value,))
    }

    spec fn handled(&self, value: Arc<T>) -> bool {
        call_ensures(*self, (value,), ())
    }

    fn notify(&self, value: Arc<T>) {
        self(value)
    }
}

/// A listener as a stream stores it: a function from a shared value to
/// nothing, boxed so that listeners of different types fit in one registry,
/// and the flag that its subscription raises when it ends.
#[verifier::reject_recursive_types(T)]
pub struct Callback<T> {
    listener: Box<dyn Listener<T>>,
    ended: EndFlag,
}

impl<T> Callback<T> {
    /// Every stored listener can be run on every value.
    #[verifier::type_invariant]
    spec fn inv(&self) -> bool {
        forall|value: Arc<T>| self.listener.accepts(value)
    }

    /// That the listener has been run on `value` and has returned. For a
    /// closure this is its postcondition on `value`.
    pub closed spec fn handled(&self, value: Arc<T>) -> bool {
        self.listener.handled(value)
    }

    /// The flag that the subscription of this listener raises when it ends.
    pub closed spec fn ended(&self) -> EndFlag {
        self.ended
    }

    /// Boxes `listener`, with a flag of its own that nobody else holds.
    pub fn new<F>(listener: F) -> (callback: Self) where F: Fn(Arc<T>) + Send + Sync + 'static
        requires
            forall|value: Arc<T>| call_requires(listener, (value,)),
        ensures
            forall|value: Arc<T>| callback.handled(value) == call_ensures(listener, (value,), ()),
    {
        Callback { listener: Box::new(listener), ended: EndFlag::new() }
    }

    /// Boxes `listener` and gives it the flag `ended`.
    pub fn flagged<F>(listener: F, ended: EndFlag) -> (callback: Self) where
        F: Fn(Arc<T>) + Send + Sync + 'static,

        requires
            forall|value: Arc<T>| call_requires(listener, (value,)),
        ensures
            callback.ended() == ended,
            forall|value: Arc<T>| callback.handled(value) == call_ensures(listener, (value,), ()),
    {
        Callback { listener: Box::new(listener), ended }
    }

    /// Whether the subscription of this listener has raised its flag by now.
    pub fn has_ended(&self) -> (ended: bool) {
        self.ended.is_raised()
    }

    /// Runs the listener on `value`.
    pub fn call(&self, value: Arc<T>)
        ensures
            self.handled(value),
    {
        proof {
            use_type_invariant(self);
        }
        self.listener.notify(value)
    }
}

} // verus!
