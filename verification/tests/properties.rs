use epoxy_streams::{Sink, Stream, Subscription};
use std::sync::{Arc, Mutex};

fn recorder(stream_host: &Sink<i32>) -> (Arc<Mutex<Vec<i32>>>, Subscription<i32>) {
    let log = Arc::new(Mutex::new(Vec::new()));
    let log_write = log.clone();
    let subscription = stream_host
        .get_stream()
        .subscribe(move |val: Arc<i32>| {
            log_write.lock().unwrap().push(*val);
        })
        .unwrap();
    (log, subscription)
}

#[test]
fn every_subscriber_gets_every_value_once_and_in_order() {
    let stream_host: Sink<i32> = Sink::new();
    let (first, _keep_first) = recorder(&stream_host);
    let (second, _keep_second) = recorder(&stream_host);
    let (third, _keep_third) = recorder(&stream_host);

    let values = vec![5, -3, 5, 0, 42, 7, 7, -100];
    for v in &values {
        assert_eq!(stream_host.emit(*v), Ok(()));
    }

    assert_eq!(*first.lock().unwrap(), values);
    assert_eq!(*second.lock().unwrap(), values);
    assert_eq!(*third.lock().unwrap(), values);
}

#[test]
fn no_emission_means_no_call() {
    let stream_host: Sink<i32> = Sink::new();
    let (log, _keep) = recorder(&stream_host);
    assert_eq!(*log.lock().unwrap(), Vec::<i32>::new());
}

#[test]
fn listeners_run_in_the_order_in_which_they_subscribed() {
    let stream_host: Sink<i32> = Sink::new();
    let stream = stream_host.get_stream();
    let order: Arc<Mutex<Vec<(usize, i32)>>> = Arc::new(Mutex::new(Vec::new()));
    let mut keep = Vec::new();
    for who in 0..20_usize {
        let order_write = order.clone();
        keep.push(
            stream
                .subscribe(move |val: Arc<i32>| {
                    order_write.lock().unwrap().push((who, *val));
                })
                .unwrap(),
        );
    }
    // Take some out of the middle: the rest keep their places.
    let gone_7 = keep.remove(7);
    drop(gone_7);
    let gone_0 = keep.remove(0);
    drop(gone_0);

    assert_eq!(stream_host.emit(1), Ok(()));
    assert_eq!(stream_host.emit(2), Ok(()));

    let mut expected = Vec::new();
    for value in [1, 2] {
        for who in 0..20_usize {
            if who != 0 && who != 7 {
                expected.push((who, value));
            }
        }
    }
    assert_eq!(*order.lock().unwrap(), expected);
}

#[test]
fn a_late_subscriber_sees_only_later_values() {
    let stream_host: Sink<i32> = Sink::new();
    let (early, _keep_early) = recorder(&stream_host);
    assert_eq!(stream_host.emit(1), Ok(()));
    let (late, _keep_late) = recorder(&stream_host);
    assert_eq!(stream_host.emit(2), Ok(()));
    assert_eq!(*early.lock().unwrap(), vec![1, 2]);
    assert_eq!(*late.lock().unwrap(), vec![2]);
}

#[test]
fn count_follows_the_live_subscriptions() {
    let stream_host: Sink<i32> = Sink::new();
    let stream = stream_host.get_stream();
    assert_eq!(stream.count_subscribers(), Ok(0));

    let mut live = Vec::new();
    for expected in 1..=10_usize {
        live.push(stream.subscribe(|_val: Arc<i32>| {}).unwrap());
        assert_eq!(stream.count_subscribers(), Ok(expected));
    }
    // Drop them in an order that is neither first-in nor last-in.
    for (index, expected) in [(3_usize, 9_usize), (0, 8), (7, 7), (0, 6), (2, 5)] {
        let gone = live.remove(index);
        drop(gone);
        assert_eq!(stream.count_subscribers(), Ok(expected));
    }
    live.push(stream.subscribe(|_val: Arc<i32>| {}).unwrap());
    assert_eq!(stream.count_subscribers(), Ok(6));
    live.clear();
    assert_eq!(stream.count_subscribers(), Ok(0));
}

#[test]
fn count_is_the_same_through_every_handle() {
    let stream_host: Sink<i32> = Sink::new();
    let one = stream_host.get_stream();
    let two = one.clone();
    let _keep = one.subscribe(|_val: Arc<i32>| {}).unwrap();
    assert_eq!(two.count_subscribers(), Ok(1));
    assert_eq!(stream_host.get_stream().count_subscribers(), Ok(1));
    let other_host: Sink<i32> = Sink::new();
    assert_eq!(other_host.get_stream().count_subscribers(), Ok(0));
}

#[test]
fn dropping_one_subscription_leaves_the_others_listening() {
    let stream_host: Sink<i32> = Sink::new();
    let (first, keep_first) = recorder(&stream_host);
    let (second, keep_second) = recorder(&stream_host);
    let (third, _keep_third) = recorder(&stream_host);

    assert_eq!(stream_host.emit(1), Ok(()));
    drop(keep_second);
    assert_eq!(stream_host.get_stream().count_subscribers(), Ok(2));
    assert_eq!(stream_host.emit(2), Ok(()));
    drop(keep_first);
    assert_eq!(stream_host.emit(3), Ok(()));

    assert_eq!(*first.lock().unwrap(), vec![1, 2]);
    assert_eq!(*second.lock().unwrap(), vec![1]);
    assert_eq!(*third.lock().unwrap(), vec![1, 2, 3]);
}

#[test]
fn piped_values_arrive_in_order_and_unchanged() {
    let sink_a: Sink<i32> = Sink::new();
    let sink_b: Sink<i32> = Sink::new();
    let _link = sink_b.get_stream().pipe_into(&sink_a).unwrap();
    let (on_a, _keep_a) = recorder(&sink_a);
    let (also_on_a, _keep_also) = recorder(&sink_a);

    let values = vec![3, 1, 4, 1, 5, 9, 2, 6];
    for v in &values {
        assert_eq!(sink_b.emit(*v), Ok(()));
    }
    assert_eq!(*on_a.lock().unwrap(), values);
    assert_eq!(*also_on_a.lock().unwrap(), values);
}

#[test]
fn pipe_counts_as_a_subscriber_of_its_source_only() {
    let sink_a: Sink<i32> = Sink::new();
    let sink_b: Sink<i32> = Sink::new();
    let link = sink_b.get_stream().pipe_into(&sink_a).unwrap();
    assert_eq!(sink_b.get_stream().count_subscribers(), Ok(1));
    assert_eq!(sink_a.get_stream().count_subscribers(), Ok(0));
    drop(link);
    assert_eq!(sink_b.get_stream().count_subscribers(), Ok(0));
    assert_eq!(sink_a.get_stream().is_alive(), Ok(true));
    assert_eq!(sink_b.get_stream().is_alive(), Ok(true));
}

#[test]
fn pipe_leaves_values_of_the_target_where_they_are() {
    let sink_a: Sink<i32> = Sink::new();
    let sink_b: Sink<i32> = Sink::new();
    let _link = sink_b.get_stream().pipe_into(&sink_a).unwrap();
    let (on_a, _keep_a) = recorder(&sink_a);
    let (on_b, _keep_b) = recorder(&sink_b);

    assert_eq!(sink_a.emit(10), Ok(()));
    assert_eq!(sink_b.emit(20), Ok(()));

    assert_eq!(*on_a.lock().unwrap(), vec![10, 20]);
    assert_eq!(*on_b.lock().unwrap(), vec![20]);
}

#[test]
fn dropping_the_link_stops_the_forwarding() {
    let sink_a: Sink<i32> = Sink::new();
    let sink_b: Sink<i32> = Sink::new();
    let link = sink_b.get_stream().pipe_into(&sink_a).unwrap();
    let (on_a, _keep_a) = recorder(&sink_a);

    assert_eq!(sink_b.emit(1), Ok(()));
    drop(link);
    assert_eq!(sink_b.emit(2), Ok(()));
    assert_eq!(sink_b.emit(3), Ok(()));
    assert_eq!(*on_a.lock().unwrap(), vec![1]);

    // Both ends work as before.
    assert_eq!(sink_a.emit(4), Ok(()));
    assert_eq!(*on_a.lock().unwrap(), vec![1, 4]);
    let (on_b, _keep_b) = recorder(&sink_b);
    assert_eq!(sink_b.emit(5), Ok(()));
    assert_eq!(*on_b.lock().unwrap(), vec![5]);
}

#[test]
fn pipes_chain() {
    let first: Sink<i32> = Sink::new();
    let second: Sink<i32> = Sink::new();
    let third: Sink<i32> = Sink::new();
    let _one = first.get_stream().pipe_into(&second).unwrap();
    let _two = second.get_stream().pipe_into(&third).unwrap();
    let (at_end, _keep) = recorder(&third);
    assert_eq!(first.emit(8), Ok(()));
    assert_eq!(second.emit(9), Ok(()));
    assert_eq!(*at_end.lock().unwrap(), vec![8, 9]);
}

#[test]
fn pipe_keeps_the_target_state_after_its_sink_is_gone() {
    let sink_b: Sink<i32> = Sink::new();
    let sink_a: Sink<i32> = Sink::new();
    let stream_a = sink_a.get_stream();
    let (on_a, _keep_a) = recorder(&sink_a);
    let _link = sink_b.get_stream().pipe_into(&sink_a).unwrap();
    drop(sink_a);
    assert_eq!(stream_a.is_alive(), Ok(false));
    // The flag is a record only: forwarding goes on.
    assert_eq!(sink_b.emit(6), Ok(()));
    assert_eq!(*on_a.lock().unwrap(), vec![6]);
}

#[test]
fn each_subscription_ends_the_registration_that_it_came_from() {
    let stream_host: Sink<i32> = Sink::new();
    let (first, keep_first) = recorder(&stream_host);
    let (second, keep_second) = recorder(&stream_host);
    let (third, keep_third) = recorder(&stream_host);
    // The second goes first, then the third, then the first: each time only
    // the listener of the subscription that was dropped falls silent.
    assert_eq!(stream_host.emit(1), Ok(()));
    drop(keep_second);
    assert_eq!(stream_host.emit(2), Ok(()));
    drop(keep_third);
    assert_eq!(stream_host.emit(3), Ok(()));
    drop(keep_first);
    assert_eq!(stream_host.emit(4), Ok(()));
    assert_eq!(*first.lock().unwrap(), vec![1, 2, 3]);
    assert_eq!(*second.lock().unwrap(), vec![1]);
    assert_eq!(*third.lock().unwrap(), vec![1, 2]);
}

#[test]
fn subscribing_and_dropping_at_once_restores_the_registry() {
    let stream_host: Sink<i32> = Sink::new();
    let stream = stream_host.get_stream();
    let (kept, _keep) = recorder(&stream_host);
    for _ in 0..5 {
        let passing = stream.subscribe(|_v: Arc<i32>| {}).unwrap();
        assert_eq!(stream.count_subscribers(), Ok(2));
        drop(passing);
        assert_eq!(stream.count_subscribers(), Ok(1));
    }
    assert_eq!(stream_host.emit(9), Ok(()));
    assert_eq!(*kept.lock().unwrap(), vec![9]);
}

#[test]
fn subscription_that_ends_while_the_stream_is_locked_is_gone_afterwards() {
    // A listener ends the subscription of another listener of the same
    // stream. The stream is locked then, so the end is put off, and made
    // good before the next count and the next emission.
    let stream_host: Sink<i32> = Sink::new();
    let stream = stream_host.get_stream();
    let (victim_log, victim) = recorder(&stream_host);
    let held: Arc<Mutex<Option<Subscription<i32>>>> = Arc::new(Mutex::new(Some(victim)));
    let held_by_listener = held.clone();
    let _killer = stream
        .subscribe(move |val: Arc<i32>| {
            if *val == 2 {
                let gone = held_by_listener.lock().unwrap().take();
                drop(gone);
            }
        })
        .unwrap();
    let (late_log, _late) = recorder(&stream_host);

    assert_eq!(stream_host.emit(1), Ok(()));
    assert_eq!(stream.count_subscribers(), Ok(3));
    assert_eq!(stream_host.emit(2), Ok(()));
    assert!(held.lock().unwrap().is_none());
    assert_eq!(stream.count_subscribers(), Ok(2));
    assert_eq!(stream_host.emit(3), Ok(()));

    assert_eq!(*victim_log.lock().unwrap(), vec![1, 2]);
    assert_eq!(*late_log.lock().unwrap(), vec![1, 2, 3]);
}

#[test]
fn listener_can_end_its_own_subscription() {
    let stream_host: Sink<i32> = Sink::new();
    let stream = stream_host.get_stream();
    let own: Arc<Mutex<Option<Subscription<i32>>>> = Arc::new(Mutex::new(None));
    let own_by_listener = own.clone();
    let log = Arc::new(Mutex::new(Vec::new()));
    let log_write = log.clone();
    let subscription = stream
        .subscribe(move |val: Arc<i32>| {
            log_write.lock().unwrap().push(*val);
            let mine = own_by_listener.lock().unwrap().take();
            drop(mine);
        })
        .unwrap();
    *own.lock().unwrap() = Some(subscription);

    assert_eq!(stream_host.emit(1), Ok(()));
    assert_eq!(stream_host.emit(2), Ok(()));
    assert_eq!(*log.lock().unwrap(), vec![1]);
    assert_eq!(stream.count_subscribers(), Ok(0));
}

#[test]
fn sink_that_goes_while_the_stream_is_locked_is_gone_afterwards() {
    let stream_host: Sink<i32> = Sink::new();
    let stream: Stream<i32> = stream_host.get_stream();
    let held: Arc<Mutex<Option<Sink<i32>>>> = Arc::new(Mutex::new(None));
    let held_by_listener = held.clone();
    let _subscription = stream
        .subscribe(move |_val: Arc<i32>| {
            let gone = held_by_listener.lock().unwrap().take();
            drop(gone);
        })
        .unwrap();
    assert_eq!(stream_host.emit(1), Ok(()));
    assert_eq!(stream.is_alive(), Ok(true));
    // The next emission finds the sink in the listener's hands.
    let other_host: Sink<i32> = Sink::new();
    let _link = other_host.get_stream().pipe_into(&stream_host).unwrap();
    *held.lock().unwrap() = Some(stream_host);
    assert_eq!(other_host.emit(2), Ok(()));
    assert!(held.lock().unwrap().is_none());
    assert_eq!(stream.is_alive(), Ok(false));
    assert_eq!(stream.count_subscribers(), Ok(1));
}
