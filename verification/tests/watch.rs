use async_ach::task::Poll;
use async_ach::watch::Interval;
use async_ach::watch::Verdict;
use async_ach::watch::Watch;
use futures_test::task::new_count_waker;
use futures_test::task::noop_waker;

const SECOND: u64 = 1_000_000_000;

#[test]
fn watch_base() {
    let watch: Watch<usize, 2> = Watch::new(0);
    let waker = noop_waker();

    let mut sub1 = watch.subscribe();
    let mut get1 = sub1.changed();
    assert!(get1.poll(0, &waker, |_| false).is_pending());
    assert!(get1.poll(0, &waker, |_| false).is_pending());
    watch.try_send(1).unwrap();
    assert_eq!(get1.poll(0, &waker, |_| false), Poll::Ready(1));

    let mut sub2 = watch.subscribe();
    let mut sub3 = watch.subscribe();
    let mut get2 = sub2.changed();
    watch.try_send(2).unwrap();
    let mut get3 = sub3.changed();
    assert_eq!(get2.poll(0, &waker, |_| false), Poll::Ready(2));
    assert_eq!(get3.poll(0, &waker, |_| false), Poll::Ready(2));
}

#[test]
fn watch_data_is_the_latest_value() {
    let watch: Watch<String, 1> = Watch::new("zero".to_string());
    assert_eq!(watch.data(), Some("zero".to_string()));
    let sub = watch.subscribe();
    watch.try_send("one".to_string()).unwrap();
    watch.try_send("two".to_string()).unwrap();
    assert_eq!(watch.data(), Some("two".to_string()));
    assert_eq!(sub.data(), Some("two".to_string()));
}

#[test]
fn watch_changes_between_polls_are_delivered_once() {
    let watch: Watch<usize, 1> = Watch::new(0);
    let (waker, count) = new_count_waker();
    let mut sub = watch.subscribe();
    let mut changed = sub.changed();
    assert!(changed.poll_next(5, &waker, |_| false).is_pending());
    watch.try_send(1).unwrap();
    assert_eq!(count.get(), 1);
    watch.try_send(2).unwrap();
    watch.try_send(3).unwrap();
    assert_eq!(changed.poll_next(6, &waker, |_| false), Poll::Ready(Some(3)));
    assert!(changed.poll_next(7, &waker, |_| false).is_pending());
}

#[test]
fn watch_send_wait() {
    let watch: Watch<usize, 1> = Watch::new(0);
    let waker = noop_waker();
    let mut sub = watch.subscribe();
    let mut send = watch.send(4);
    assert!(!send.is_terminated());
    assert!(send.poll(&waker).is_ready());
    assert!(send.is_terminated());
    assert_eq!(sub.changed().poll(0, &waker, |_| false), Poll::Ready(4));
}

#[test]
fn interval_throttle() {
    let interval = Interval { min: SECOND, max: Some(3 * SECOND) };
    assert_eq!(interval.throttle(0, 0), Some(SECOND));
    assert_eq!(interval.throttle(0, SECOND - 1), Some(SECOND));
    assert_eq!(interval.throttle(0, SECOND), None);
    assert_eq!(interval.throttle(2 * SECOND, 2 * SECOND + 5), Some(3 * SECOND));
    assert_eq!(interval.throttle(u64::MAX - 5, 7), Some(u64::MAX));
    assert_eq!(Interval::unbounded().throttle(10, 0), None);
    assert_eq!(Interval::unbounded(), Interval { min: 0, max: None });
}

#[test]
fn interval_verdict() {
    let interval = Interval { min: SECOND, max: Some(3 * SECOND) };
    assert_eq!(interval.verdict(0, 3 * SECOND, 4, 4), Verdict::Arm(3 * SECOND));
    assert_eq!(interval.verdict(0, 3 * SECOND + 1, 4, 4), Verdict::Overdue);
    assert_eq!(interval.verdict(0, 3 * SECOND + 1, 4, 5), Verdict::Overdue);
    assert_eq!(interval.verdict(0, 2 * SECOND, 4, 5), Verdict::Changed);
    assert_eq!(interval.verdict(0, 2 * SECOND, 5, 4), Verdict::Arm(3 * SECOND));
    assert_eq!(interval.verdict(u64::MAX, 2 * SECOND, 5, 5), Verdict::Arm(u64::MAX));
    let free = Interval::unbounded();
    assert_eq!(free.verdict(0, u64::MAX, 4, 4), Verdict::Park);
    assert_eq!(free.verdict(0, 0, 4, 5), Verdict::Changed);
}

#[test]
fn watch_interval() {
    let watch: Watch<usize, 2> = Watch::new(0);
    let waker = noop_waker();
    let mut sub = watch.subscribe();
    let interval = Interval { min: SECOND, max: Some(3 * SECOND) };
    let mut changed = sub.changed_interval(interval);
    let mut armed = Vec::new();

    assert_eq!(changed.throttle(0), Some(SECOND));
    watch.try_send(1).unwrap();
    assert_eq!(changed.throttle(SECOND), None);
    assert_eq!(changed.poll_next(SECOND, &waker, |at| { armed.push(at); false }), Poll::Ready(Some(1)));

    watch.try_send(2).unwrap();
    assert_eq!(changed.throttle(SECOND + 1), Some(2 * SECOND));
    watch.try_send(3).unwrap();
    assert_eq!(changed.throttle(2 * SECOND), None);
    assert_eq!(changed.poll_next(2 * SECOND, &waker, |at| { armed.push(at); false }), Poll::Ready(Some(3)));

    assert_eq!(changed.throttle(3 * SECOND), None);
    assert_eq!(changed.poll_next(3 * SECOND, &waker, |at| { armed.push(at); false }), Poll::Pending);
    assert_eq!(armed, vec![5 * SECOND]);
    watch.try_send(4).unwrap();
    assert_eq!(changed.poll_next(3 * SECOND + 200, &waker, |at| { armed.push(at); false }), Poll::Ready(Some(4)));

    assert_eq!(changed.throttle(4 * SECOND + 200), None);
    assert_eq!(changed.poll_next(4 * SECOND + 200, &waker, |at| { armed.push(at); false }), Poll::Pending);
    assert_eq!(armed, vec![5 * SECOND, 6 * SECOND + 200]);
    assert_eq!(changed.poll_next(6 * SECOND + 201, &waker, |at| { armed.push(at); false }), Poll::Ready(Some(4)));
    assert_eq!(armed, vec![5 * SECOND, 6 * SECOND + 200]);
}

#[test]
fn watch_timer_that_has_gone_off_delivers() {
    let watch: Watch<usize, 1> = Watch::new(8);
    let waker = noop_waker();
    let mut sub = watch.subscribe();
    let mut changed = sub.changed_interval(Interval { min: 0, max: Some(10) });
    assert_eq!(changed.verdict(5, 0), Verdict::Arm(10));
    assert_eq!(changed.look(5, 0, false, Some(8)), Err(()));
    assert_eq!(changed.look(5, 0, true, None), Err(()));
    assert_eq!(changed.look(5, 0, true, Some(8)), Ok(8));
    assert_eq!(changed.verdict(6, 0), Verdict::Arm(15));
    assert_eq!(changed.poll(6, &waker, |at| at == 15), Poll::Ready(8));
    assert_eq!(changed.poll(7, &waker, |_| false), Poll::Pending);
}

#[test]
fn look_delivers_a_change_and_takes_it_as_seen() {
    let watch: Watch<usize, 1> = Watch::new(0);
    let mut sub = watch.receiver(3);
    let mut changed = sub.changed();
    assert_eq!(changed.verdict(0, 3), Verdict::Park);
    assert_eq!(changed.look(0, 3, false, Some(1)), Err(()));
    assert_eq!(changed.verdict(0, 4), Verdict::Changed);
    assert_eq!(changed.look(0, 4, false, None), Err(()));
    assert_eq!(changed.verdict(0, 4), Verdict::Changed);
    assert_eq!(changed.look(9, 4, false, Some(1)), Ok(1));
    assert_eq!(changed.verdict(9, 4), Verdict::Park);
    assert_eq!(changed.throttle(9), None);
}

#[test]
fn deliver_hands_out_the_value_read() {
    let watch: Watch<usize, 1> = Watch::new(0);
    let mut sub = watch.receiver(0);
    let mut changed = sub.changed_interval(Interval { min: 10, max: None });
    assert_eq!(changed.deliver(5, Some(2), None), None);
    assert_eq!(changed.throttle(5), Some(10));
    assert_eq!(changed.verdict(5, 2), Verdict::Changed);
    assert_eq!(changed.deliver(5, Some(2), Some(7)), Some(7));
    assert_eq!(changed.throttle(6), Some(15));
    assert_eq!(changed.verdict(5, 2), Verdict::Park);
    assert_eq!(changed.deliver(8, None, Some(9)), Some(9));
    assert_eq!(changed.throttle(8), Some(18));
}

#[test]
fn due_on_each_verdict() {
    assert_eq!(Verdict::Overdue.due(false, 4), Some(None));
    assert_eq!(Verdict::Changed.due(false, 4), Some(Some(4)));
    assert_eq!(Verdict::Arm(9).due(true, 4), Some(None));
    assert_eq!(Verdict::Arm(9).due(false, 4), None);
    assert_eq!(Verdict::Park.due(true, 4), None);
}

#[test]
fn one_send_releases_every_receiver() {
    let watch: Watch<usize, 2> = Watch::new(0);
    let waker = noop_waker();
    let mut r1 = watch.subscribe();
    let mut r2 = watch.subscribe();
    assert!(r1.changed().poll_next(0, &waker, |_| false).is_pending());
    assert!(r2.changed().poll_next(0, &waker, |_| false).is_pending());
    watch.try_send(1).unwrap();
    assert_eq!(r1.changed().poll_next(0, &waker, |_| false), Poll::Ready(Some(1)));
    assert_eq!(r2.changed().poll_next(0, &waker, |_| false), Poll::Ready(Some(1)));
    assert!(r1.changed().poll_next(0, &waker, |_| false).is_pending());
    assert!(r2.changed().poll_next(0, &waker, |_| false).is_pending());
}

#[test]
fn watch_published_moves_the_version_on_success_only() {
    let watch: Watch<usize, 1> = Watch::new(0);
    let waker = noop_waker();
    let mut sub = watch.subscribe();
    let refused = watch.published(Err(async_ach::error::Error {
        state: ach_util::MemoryState::Regaining,
        input: 9,
        retry: true,
    }));
    assert_eq!(refused.unwrap_err().input, 9);
    assert!(sub.changed().poll(0, &waker, |_| false).is_pending());
    assert!(watch.published(Ok(Some(1))).is_ok());
    assert_eq!(sub.changed().poll(0, &waker, |_| false), Poll::Ready(0));
}
