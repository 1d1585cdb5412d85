use crate::callback::Callback;
use crate::state::StreamView;
use vstd::prelude::*;

verus! {

/// One thing that can happen to the state of a stream between two emissions.
#[verifier::reject_recursive_types(T)]
pub enum Step<T> {
    /// A listener asks to subscribe.
    Subscribe(Callback<T>),
    /// The subscription with this id ends.
    Unsubscribe(u64),
    /// The sink goes.
    Close,
}

impl<T> StreamView<T> {
    /// The state after `step`. A subscription is granted as long as there is
    /// an id left for it, and changes nothing otherwise.
    pub open spec fn step(self, step: Step<T>) -> Self {
        match step {
            Step::Subscribe(callback) => if self.next_id < u64::MAX {
                self.subscribed(callback)
            } else {
                self
            },
            Step::Unsubscribe(id) => self.unsubscribed(id),
            Step::Close => self.closed(),
        }
    }

    /// The state after all of `steps`, first to last.
    pub open spec fn run(self, steps: Seq<Step<T>>) -> Self
        decreases steps.len(),
    {
        if steps.len() == 0 {
            self
        } else {
            self.run(steps.drop_last()).step(steps.last())
        }
    }

    /// The id that a subscription gets if it is step `i` of `steps`.
    pub open spec fn id_at(self, steps: Seq<Step<T>>, i: int) -> u64 {
        self.run(steps.take(i)).next_id
    }

    /// That step `i` of `steps` is a subscription which was granted.
    pub open spec fn granted(self, steps: Seq<Step<T>>, i: int) -> bool {
        &&& 0 <= i < steps.len()
        &&& steps[i] is Subscribe
        &&& self.id_at(steps, i) < u64::MAX
    }

    /// That step `i` of `steps` is a subscription which was granted and which
    /// no later step has ended.
    pub open spec fn live(self, steps: Seq<Step<T>>, i: int) -> bool {
        &&& self.granted(steps, i)
        &&& forall|j: int|
            i < j < steps.len() ==> #[trigger] steps[j] != Step::<T>::Unsubscribe(
                self.id_at(steps, i),
            )
    }

    /// The subscriptions of `steps` that are live at the end, by their place
    /// in `steps`.
    pub open spec fn live_steps(self, steps: Seq<Step<T>>) -> Set<int> {
        Set::new(|i: int| self.live(steps, i))
    }
}

proof fn lemma_run_one_more<T>(start: StreamView<T>, steps: Seq<Step<T>>, i: int)
    requires
        0 <= i < steps.len(),
    ensures
        start.run(steps.take(i + 1)) == start.run(steps.take(i)).step(steps[i]),
{
    let longer = steps.take(i + 1);
    assert(longer.drop_last() == steps.take(i));
    assert(longer.last() == steps[i]);
}

/// No step lowers the id that comes next, and none brings a stream whose sink
/// has gone back to life.
pub proof fn lemma_counter_and_flag_go_one_way<T>(
    start: StreamView<T>,
    steps: Seq<Step<T>>,
    i: int,
    j: int,
)
    requires
        0 <= i <= j <= steps.len(),
    ensures
        start.id_at(steps, i) <= start.id_at(steps, j),
        start.run(steps.take(j)).alive ==> start.run(steps.take(i)).alive,
    decreases j - i,
{
    if i < j {
        lemma_counter_and_flag_go_one_way(start, steps, i, j - 1);
        lemma_run_one_more(start, steps, j - 1);
    }
}

/// A granted subscription uses its id up: every later step finds the counter
/// beyond it, so no later subscription gets the same id.
pub proof fn lemma_ids_are_not_reused<T>(
    start: StreamView<T>,
    steps: Seq<Step<T>>,
    i: int,
    j: int,
)
    requires
        start.granted(steps, i),
        i < j <= steps.len(),
    ensures
        start.id_at(steps, i) < start.id_at(steps, j),
{
    lemma_run_one_more(start, steps, i);
    lemma_counter_and_flag_go_one_way(start, steps, i + 1, j);
}

/// How the live subscriptions of some steps follow from those of the steps
/// before the last: an earlier one stays live unless the last step ends it,
/// and the last step adds one if it is a subscription that is granted.
proof fn lemma_live_after_one_more<T>(start: StreamView<T>, steps: Seq<Step<T>>)
    requires
        steps.len() > 0,
    ensures
        forall|i: int|
            0 <= i < steps.len() ==> #[trigger] start.id_at(steps, i) == start.id_at(
                steps.drop_last(),
                i,
            ),
        forall|i: int|
            0 <= i < steps.len() - 1 ==> (#[trigger] start.live(steps, i) <==> start.live(
                steps.drop_last(),
                i,
            ) && steps.last() != Step::<T>::Unsubscribe(start.id_at(steps.drop_last(), i))),
        start.live(steps, steps.len() - 1) <==> steps.last() is Subscribe && start.run(
            steps.drop_last(),
        ).next_id < u64::MAX,
        start.id_at(steps, steps.len() - 1) == start.run(steps.drop_last()).next_id,
        forall|i: int| #[trigger]
            start.live(steps.drop_last(), i) ==> 0 <= i < steps.len() - 1 && start.id_at(
                steps.drop_last(),
                i,
            ) < start.run(steps.drop_last()).next_id,
{
    let n = steps.len() - 1;
    let earlier = steps.drop_last();
    let last = steps.last();
    assert(steps.take(n) == earlier);
    assert(earlier.take(n) == earlier);
    assert forall|i: int| 0 <= i <= n implies #[trigger] start.id_at(steps, i) == start.id_at(
        earlier,
        i,
    ) by {
        assert(steps.take(i) == earlier.take(i));
    }
    assert forall|i: int| 0 <= i < n implies (#[trigger] start.live(steps, i) <==> start.live(
        earlier,
        i,
    ) && last != Step::<T>::Unsubscribe(start.id_at(earlier, i))) by {
        assert(start.id_at(steps, i) == start.id_at(earlier, i));
        assert(steps[i] == earlier[i]);
        if start.live(steps, i) {
            assert(steps[n] != Step::<T>::Unsubscribe(start.id_at(steps, i)));
            assert forall|j: int| i < j < earlier.len() implies #[trigger] earlier[j]
                != Step::<T>::Unsubscribe(start.id_at(earlier, i)) by {
                assert(steps[j] == earlier[j]);
            }
        }
        if start.live(earlier, i) && last != Step::<T>::Unsubscribe(start.id_at(earlier, i)) {
            assert forall|j: int| i < j < steps.len() implies #[trigger] steps[j]
                != Step::<T>::Unsubscribe(start.id_at(steps, i)) by {
                if j < n {
                    assert(steps[j] == earlier[j]);
                }
            }
        }
    }
    assert forall|i: int| #[trigger] start.live(earlier, i) implies 0 <= i < n && start.id_at(
        earlier,
        i,
    ) < start.run(earlier).next_id by {
        lemma_ids_are_not_reused(start, earlier, i, n);
    }
}

/// A subscription that is live before the last step, and that the last step
/// does not end, is live after it, under the same id.
proof fn lemma_live_subscription_stays<T>(start: StreamView<T>, steps: Seq<Step<T>>, id: u64)
    requires
        steps.len() > 0,
        steps.last() != Step::<T>::Unsubscribe(id),
        exists|i: int|
            #[trigger] start.live(steps.drop_last(), i) && start.id_at(steps.drop_last(), i) == id,
    ensures
        exists|i: int| #[trigger] start.live(steps, i) && start.id_at(steps, i) == id,
{
    lemma_live_after_one_more(start, steps);
    let earlier = steps.drop_last();
    let i = choose|i: int| #[trigger] start.live(earlier, i) && start.id_at(earlier, i) == id;
    assert(start.live(steps, i) && start.id_at(steps, i) == id);
}

/// After any steps from a state without subscribers, the registry holds
/// exactly the subscriptions that were granted and have not ended since, each
/// under the id that it was given. The number of subscribers is therefore the
/// number of live subscriptions.
pub proof fn lemma_registry_is_the_live_subscriptions<T>(
    start: StreamView<T>,
    steps: Seq<Step<T>>,
)
    requires
        start.wf(),
        start.subscribers == Map::<u64, Callback<T>>::empty(),
    ensures
        start.run(steps).wf(),
        forall|id: u64|
            start.run(steps).subscribers.contains_key(id) <==> exists|i: int|
                #[trigger] start.live(steps, i) && start.id_at(steps, i) == id,
        start.live_steps(steps).finite(),
        start.run(steps).subscribers.len() == start.live_steps(steps).len(),
    decreases steps.len(),
{
    let end = start.run(steps);
    if steps.len() == 0 {
        assert(start.live_steps(steps) == Set::<int>::empty());
    } else {
        let n = steps.len() - 1;
        let earlier = steps.drop_last();
        let last = steps.last();
        let mid = start.run(earlier);
        lemma_registry_is_the_live_subscriptions(start, earlier);
        lemma_live_after_one_more(start, steps);
        assert(!start.live_steps(earlier).contains(n));
        // Whoever is in the registry at the end was there before the last
        // step, and is live after it, or has come with the last step.
        assert forall|id: u64| end.subscribers.contains_key(id) implies exists|i: int|
            #[trigger] start.live(steps, i) && start.id_at(steps, i) == id by {
            if mid.subscribers.contains_key(id) {
                lemma_live_subscription_stays(start, steps, id);
            } else {
                assert(start.live(steps, n) && start.id_at(steps, n) == id);
            }
        }
        match last {
            Step::Subscribe(callback) => {
                if mid.next_id < u64::MAX {
                    assert(start.live_steps(steps) == start.live_steps(earlier).insert(n));
                    assert(end.subscribers.dom() == mid.subscribers.dom().insert(mid.next_id));
                } else {
                    assert(start.live_steps(steps) == start.live_steps(earlier));
                }
            },
            Step::Close => {
                assert(start.live_steps(steps) == start.live_steps(earlier));
            },
            Step::Unsubscribe(gone) => {
                assert(end.subscribers.dom() == mid.subscribers.dom().remove(gone));
                if mid.subscribers.contains_key(gone) {
                    let i0 = choose|i: int|
                        #[trigger] start.live(earlier, i) && start.id_at(earlier, i) == gone;
                    assert forall|i: int|
                        #[trigger] start.live(earlier, i) && i != i0 implies start.id_at(earlier, i)
                        != gone by {
                        if i < i0 {
                            lemma_ids_are_not_reused(start, earlier, i, i0);
                        } else {
                            lemma_ids_are_not_reused(start, earlier, i0, i);
                        }
                    }
                    assert(start.live_steps(steps) == start.live_steps(earlier).remove(i0));
                } else {
                    assert forall|i: int| #[trigger] start.live(earlier, i) implies start.id_at(
                        earlier,
                        i,
                    ) != gone by {
                        assert(mid.subscribers.contains_key(start.id_at(earlier, i)));
                    }
                    assert(start.live_steps(steps) == start.live_steps(earlier));
                }
            },
        }
    }
}

} // verus!
