use crate::callback::Callback;
use crate::end_flag::EndFlag;
use crate::error::StreamError;
use crate::extra_fields::{downcast_mut, downcast_ref, erase, mutate_found, read_found, ExtraFields};
use std::collections::BTreeMap;
use std::sync::Arc;
use vstd::prelude::*;
use vstd::std_specs::btree::spec_btree_map_iter;
use vstd::std_specs::iter::IteratorSpec;

verus! {

/// The state that all handles of one stream share: the registry of
/// subscribers, the id that the next subscriber will get, whether the sink is
/// still there, and the extra fields of a derived stream.
#[verifier::reject_recursive_types(T)]
pub struct StreamImpl<T> {
    highest_id: u64,
    is_alive: bool,
    on_emit: BTreeMap<u64, Callback<T>>,
    extra_fields: Option<ExtraFields>,
}

/// What a `StreamImpl` is, as far as its contracts are concerned.
#[verifier::reject_recursive_types(T)]
pub struct StreamView<T> {
    /// The id that the next subscriber will get. Every id below it has been
    /// handed out, and none of them will be handed out again.
    pub next_id: u64,
    /// True until the sink is dropped.
    pub alive: bool,
    /// The listeners that are subscribed now, each under its id.
    pub subscribers: Map<u64, Callback<T>>,
    /// The extra fields that the state was made with, if any. What they
    /// hold is closed to contracts, which can say of them only whether they
    /// are there and whether they are as they were.
    pub extra_fields: Option<ExtraFields>,
}

impl<T> View for StreamImpl<T> {
    type V = StreamView<T>;

    closed spec fn view(&self) -> StreamView<T> {
        StreamView {
            next_id: self.highest_id,
            alive: self.is_alive,
            subscribers: self.on_emit@,
            extra_fields: self.extra_fields,
        }
    }
}

impl<T> StreamView<T> {
    /// The state of a stream that nobody has subscribed to yet and whose sink
    /// is there.
    pub open spec fn fresh(first_id: u64, extra_fields: Option<ExtraFields>) -> Self {
        StreamView { next_id: first_id, alive: true, subscribers: Map::empty(), extra_fields }
    }

    /// Whether the state was made with extra fields.
    pub open spec fn has_extra_fields(self) -> bool {
        self.extra_fields is Some
    }

    /// The registry is finite, and every subscriber's id has been handed out.
    pub open spec fn wf(self) -> bool {
        &&& self.subscribers.dom().finite()
        &&& forall|id: u64| self.subscribers.contains_key(id) ==> id < self.next_id
    }

    /// The state after `callback` has subscribed: it stands in the registry
    /// under the id that was next, and that id is used up.
    pub open spec fn subscribed(self, callback: Callback<T>) -> Self {
        StreamView {
            next_id: (self.next_id + 1) as u64,
            subscribers: self.subscribers.insert(self.next_id, callback),
            ..self
        }
    }

    /// The state after the subscription with this id has ended.
    pub open spec fn unsubscribed(self, id: u64) -> Self {
        StreamView { subscribers: self.subscribers.remove(id), ..self }
    }

    /// The state after the subscriptions with these ids have ended.
    pub open spec fn without(self, ids: Set<u64>) -> Self {
        StreamView { subscribers: self.subscribers.remove_keys(ids), ..self }
    }

    /// The state after the sink has gone.
    pub open spec fn closed(self) -> Self {
        StreamView { alive: false, ..self }
    }

    /// That every subscriber has been run on `value` and has returned.
    pub open spec fn delivered(self, value: Arc<T>) -> bool {
        forall|id: u64|
            self.subscribers.contains_key(id) ==> (#[trigger] self.subscribers[id]).handled(value)
    }
}

/// `BTreeMap::remove`, for a map with integer keys: takes the entry under `id`
/// out of the map and returns its value, or returns `None` and leaves the map
/// as it is where there is no such entry. Comparing integers cannot fail, so
/// the call returns normally.
#[verifier::external_body]
fn take_entry<V>(map: &mut BTreeMap<u64, V>, id: u64) -> (taken: Option<V>)
    ensures
        final(map)@ == old(map)@.remove(id),
        taken == if old(map)@.contains_key(id) {
            Some(old(map)@[id])
        } else {
            None
        },
    opens_invariants none
    no_unwind
{
    map.remove(&id)
}

/// Puts `id` on the list if `ended` says that its flag was found raised, and
/// leaves the list as it is if not.
pub fn note_if_ended(ids: &mut Vec<u64>, id: u64, ended: bool)
    ensures
        final(ids)@ == if ended {
            old(ids)@.push(id)
        } else {
            old(ids)@
        },
{
    if ended {
        ids.push(id);
    }
}

impl<T> StreamImpl<T> {
    #[verifier::type_invariant]
    pub(crate) open spec fn inv(&self) -> bool {
        self@.wf()
    }

    /// A state with no subscribers and no extra fields, whose first
    /// subscriber will get the id `first_id`.
    pub fn starting_at(first_id: u64) -> (state: Self)
        ensures
            state@ == StreamView::<T>::fresh(first_id, None),
            state@.wf(),
    {
        StreamImpl { highest_id: first_id, is_alive: true, on_emit: BTreeMap::new(), extra_fields: None }
    }

    /// A state with no subscribers and no extra fields.
    pub fn new() -> (state: Self)
        ensures
            state@ == StreamView::<T>::fresh(0, None),
            state@.wf(),
    {
        Self::starting_at(0)
    }

    /// A state with no subscribers, which keeps `fields` for as long as it
    /// lives.
    pub fn new_with_fields<X>(fields: X) -> (state: Self) where X: Send + Sync + 'static
        ensures
            state@.has_extra_fields(),
            state@ == StreamView::<T>::fresh(0, state@.extra_fields),
            state@.wf(),
    {
        StreamImpl {
            highest_id: 0,
            is_alive: true,
            on_emit: BTreeMap::new(),
            extra_fields: Some(erase(fields)),
        }
    }

    /// Registers `listener` under the next id and returns that id. Fails, and
    /// changes nothing, once every id has been handed out.
    pub fn subscribe<F>(&mut self, listener: F) -> (result: Result<u64, StreamError>) where
        F: Fn(Arc<T>) + Send + Sync + 'static,

        requires
            forall|value: Arc<T>| call_requires(listener, (value,)),
        ensures
            final(self)@.wf(),
            match result {
                Ok(id) => {
                    &&& id == old(self)@.next_id
                    &&& id < u64::MAX
                    &&& !old(self)@.subscribers.contains_key(id)
                    &&& final(self)@ == old(self)@.subscribed(final(self)@.subscribers[id])
                    &&& forall|value: Arc<T>|
                        final(self)@.subscribers[id].handled(value) == call_ensures(
                            listener,
                            (value,),
                            (),
                        )
                },
                Err(e) => {
                    &&& e == StreamError::Exhausted
                    &&& old(self)@.next_id == u64::MAX
                    &&& *final(self) == *old(self)
                },
            },
    {
        self.subscribe_flagged(listener, EndFlag::new())
    }

    /// Registers `listener` as `subscribe` does, and gives its entry the flag
    /// `ended`. Whoever holds that flag can end the subscription without the
    /// state at hand: `drop_ended` takes out the entries whose flag is raised.
    pub fn subscribe_flagged<F>(&mut self, listener: F, ended: EndFlag) -> (result: Result<
        u64,
        StreamError,
    >) where F: Fn(Arc<T>) + Send + Sync + 'static
        requires
            forall|value: Arc<T>| call_requires(listener, (value,)),
        ensures
            final(self)@.wf(),
            match result {
                Ok(id) => {
                    &&& id == old(self)@.next_id
                    &&& id < u64::MAX
                    &&& !old(self)@.subscribers.contains_key(id)
                    &&& final(self)@ == old(self)@.subscribed(final(self)@.subscribers[id])
                    &&& final(self)@.subscribers[id].ended() == ended
                    &&& forall|value: Arc<T>|
                        final(self)@.subscribers[id].handled(value) == call_ensures(
                            listener,
                            (value,),
                            (),
                        )
                },
                Err(e) => {
                    &&& e == StreamError::Exhausted
                    &&& old(self)@.next_id == u64::MAX
                    &&& *final(self) == *old(self)
                },
            },
    {
        proof {
            use_type_invariant(&*self);
        }
        if self.highest_id == u64::MAX {
            return Err(StreamError::Exhausted);
        }
        let new_subscription_id = self.highest_id;
        let callback = Callback::flagged(listener, ended);
        // The registry is taken out while it grows, so that `self` is well
        // formed at every step.
        let mut on_emit = BTreeMap::new();
        std::mem::swap(&mut self.on_emit, &mut on_emit);
        on_emit.insert(new_subscription_id, callback);
        self.highest_id = new_subscription_id + 1;
        std::mem::swap(&mut self.on_emit, &mut on_emit);
        Ok(new_subscription_id)
    }

    /// The number of listeners that are subscribed now.
    pub fn count_subscribers(&self) -> (count: usize)
        ensures
            count == self@.subscribers.len(),
    {
        self.on_emit.len()
    }

    /// Takes the listener with this id out of the registry. Where there is
    /// none, nothing changes.
    pub fn unsubscribe_by_id(&mut self, subscription_id: u64)
        ensures
            final(self)@.wf(),
            final(self)@ == old(self)@.unsubscribed(subscription_id),
        opens_invariants none
        no_unwind
    {
        proof {
            use_type_invariant(&*self);
        }
        let _removed = take_entry(&mut self.on_emit, subscription_id);
    }

    /// The ids of the listeners whose subscription has raised its flag. Which
    /// these are is decided by the flags, at the time when each is read.
    pub fn ended_ids(&self) -> (ids: Vec<u64>)
        ensures
            forall|i: int| 0 <= i < ids.len() ==> self@.subscribers.contains_key(#[trigger] ids[i]),
    {
        let ghost subscribers = self.on_emit@;
        let ghost order = spec_btree_map_iter(&self.on_emit).remaining();
        let ghost mut done: int = 0;
        let mut ids: Vec<u64> = Vec::new();
        for entry in iter: self.on_emit.iter()
            invariant
                subscribers == self.on_emit@,
                order == iter.seq(),
                done == iter.index(),
                forall|i: int|
                    0 <= i < order.len() ==> subscribers.contains_key(*(#[trigger] order[i]).0),
                forall|i: int| 0 <= i < ids.len() ==> subscribers.contains_key(#[trigger] ids[i]),
        {
            note_if_ended(&mut ids, *entry.0, entry.1.has_ended());
            proof {
                done = done + 1;
            }
        }
        ids
    }

    /// Takes the listeners with these ids out of the registry. An id that has
    /// no listener changes nothing.
    pub fn unsubscribe_all(&mut self, ids: &Vec<u64>)
        ensures
            final(self)@.wf(),
            final(self)@ == old(self)@.without(ids@.to_set()),
    {
        proof {
            use_type_invariant(&*self);
        }
        let ghost mut gone: Set<u64> = Set::empty();
        let mut i: usize = 0;
        assert(self@ == old(self)@.without(gone)) by {
            assert(old(self)@.subscribers.remove_keys(gone) == old(self)@.subscribers);
        }
        while i < ids.len()
            invariant
                i <= ids.len(),
                self@.wf(),
                self@ == old(self)@.without(gone),
                gone == ids@.take(i as int).to_set(),
            decreases ids.len() - i,
        {
            let ghost before = self.on_emit@;
            let _removed = take_entry(&mut self.on_emit, ids[i]);
            proof {
                assert(old(self)@.subscribers.remove_keys(gone.insert(ids[i as int]))
                    == before.remove(ids[i as int]));
                assert(ids@.take(i + 1) == ids@.take(i as int).push(ids[i as int]));
                assert(ids@.take(i + 1).to_set() == gone.insert(ids[i as int])) by {
                    let shorter = ids@.take(i as int);
                    let longer = shorter.push(ids[i as int]);
                    assert forall|id: u64| longer.to_set().contains(id) <==> gone.insert(
                        ids[i as int],
                    ).contains(id) by {
                        if longer.contains(id) {
                            let k = choose|k: int| 0 <= k < longer.len() && longer[k] == id;
                            if k < shorter.len() {
                                assert(shorter[k] == id);
                                assert(shorter.contains(id));
                            }
                        }
                        if shorter.contains(id) {
                            let k = choose|k: int| 0 <= k < shorter.len() && shorter[k] == id;
                            assert(longer[k] == id);
                        }
                        if id == ids[i as int] {
                            assert(longer[shorter.len() as int] == id);
                        }
                    }
                }
                gone = gone.insert(ids[i as int]);
            }
            i += 1;
        }
        assert(ids@.take(ids.len() as int) == ids@);
    }

    /// Takes out of the registry every listener whose subscription has
    /// raised its flag: `unsubscribe_all` of `ended_ids`. Nothing else
    /// changes.
    pub fn drop_ended(&mut self)
        ensures
            final(self)@.wf(),
            exists|gone: Set<u64>|
                gone.subset_of(old(self)@.subscribers.dom()) && final(self)@ == old(self)@.without(
                    gone,
                ),
    {
        let ids = self.ended_ids();
        self.unsubscribe_all(&ids);
        assert(ids@.to_set().subset_of(old(self)@.subscribers.dom())) by {
            assert forall|id: u64| ids@.to_set().contains(id) implies old(
                self,
            )@.subscribers.dom().contains(id) by {
                let k = choose|k: int| 0 <= k < ids@.len() && ids@[k] == id;
                assert(old(self)@.subscribers.contains_key(ids[k]));
            }
        }
    }

    /// Runs every subscribed listener on `value`, in ascending order of the
    /// subscribers' ids, and returns when the last one has returned.
    pub fn emit_rc(&self, value: Arc<T>)
        ensures
            self@.delivered(value),
    {
        let ghost subscribers = self.on_emit@;
        let ghost order = spec_btree_map_iter(&self.on_emit).remaining();
        let ghost mut done: int = 0;
        for entry in iter: self.on_emit.iter()
            invariant
                subscribers == self.on_emit@,
                order == iter.seq(),
                done == iter.index(),
                forall|i: int|
                    0 <= i < order.len() ==> subscribers.contains_key(*(#[trigger] order[i]).0)
                        && subscribers[*order[i].0] == *order[i].1,
                forall|i: int| 0 <= i < done ==> (#[trigger] order[i]).1.handled(value),
        {
            entry.1.call(value.clone());
            proof {
                done = done + 1;
            }
        }
        assert forall|id: u64| subscribers.contains_key(id) implies (#[trigger] subscribers[id]).handled(
            value,
        ) by {
            let entry = (&id, &subscribers[id]);
            assert(order.contains(entry));
            let i = choose|i: int| 0 <= i < order.len() && order[i] == entry;
            assert(order[i].1.handled(value));
        }
    }

    /// Whether the sink of this stream is still there.
    pub fn is_alive(&self) -> (alive: bool)
        ensures
            alive == self@.alive,
    {
        self.is_alive
    }

    /// Records that the sink of this stream is gone. Nothing else changes:
    /// the listeners stay subscribed, and values can still be emitted.
    pub fn close(&mut self)
        ensures
            final(self)@.wf(),
            final(self)@ == old(self)@.closed(),
        opens_invariants none
        no_unwind
    {
        proof {
            use_type_invariant(&*self);
        }
        self.is_alive = false;
    }

    /// Whether the state was made with extra fields.
    pub fn has_extra_fields(&self) -> (present: bool)
        ensures
            present == self@.has_extra_fields(),
    {
        self.extra_fields.is_some()
    }

    /// Runs `cb` on the extra fields, taken to be of type `X`. The state must
    /// have extra fields. Fails where they are of another type.
    pub fn read_extra_fields<X, R, F>(&self, cb: F) -> (result: Result<R, StreamError>) where
        X: 'static,
        F: FnOnce(&X) -> R,

        requires
            self@.has_extra_fields(),
            forall|fields: &X| call_requires(cb, (fields,)),
        ensures
            match result {
                Ok(value) => exists|fields: &X| call_ensures(cb, (fields,), value),
                Err(e) => e == StreamError::InvalidExtraFields,
            },
    {
        match &self.extra_fields {
            Some(erased) => read_found(downcast_ref::<X>(erased), cb),
            None => Err(StreamError::InvalidExtraFields),
        }
    }

    /// Runs `cb` on the extra fields, taken to be of type `X`, with the right
    /// to change them. The state must have extra fields. Fails where they are
    /// of another type. Nothing but the extra fields is touched.
    pub fn mutate_extra_fields<X, F>(&mut self, cb: F) -> (result: Result<(), StreamError>) where
        X: 'static,
        F: FnOnce(&mut X),

        requires
            old(self)@.has_extra_fields(),
            forall|fields: &mut X| call_requires(cb, (fields,)),
        ensures
            final(self)@.wf(),
            final(self)@.has_extra_fields(),
            final(self)@ == (StreamView { extra_fields: final(self)@.extra_fields, ..old(self)@ }),
            match result {
                Ok(_) => exists|fields: &mut X| call_ensures(cb, (fields,), ()),
                Err(e) => e == StreamError::InvalidExtraFields && *final(self) == *old(self),
            },
    {
        proof {
            use_type_invariant(&*self);
        }
        // The fields are taken out while `cb` works on them, and put back
        // when it has returned.
        let mut extra_fields = None;
        std::mem::swap(&mut self.extra_fields, &mut extra_fields);
        let result = match &mut extra_fields {
            Some(erased) => mutate_found(downcast_mut::<X>(erased), cb),
            None => Err(StreamError::InvalidExtraFields),
        };
        std::mem::swap(&mut self.extra_fields, &mut extra_fields);
        result
    }
}

} // verus!
