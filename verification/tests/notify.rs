use async_ach::notify::claim;
use async_ach::notify::versioned;
use async_ach::notify::Notify;
use async_ach::task::Poll;
use futures_test::task::new_count_waker;
use futures_test::task::noop_waker;
use async_ach::notify::race::after_try;
use async_ach::notify::race::report;
use async_ach::notify::race::Polling;
use async_ach::notify::broadcast_step;

#[test]
fn notify_base() {
    let notify: Notify<2> = Notify::new();
    let waker = noop_waker();

    let mut listener1 = notify.listen();
    assert!(listener1.poll(&waker).is_pending());
    assert!(listener1.poll(&waker).is_pending());
    notify.notify_one();
    assert!(listener1.poll(&waker).is_ready());
    assert!(listener1.poll(&waker).is_pending());

    let mut listener2 = notify.listen();
    let mut listener3 = notify.listen();
    assert!(listener1.poll(&waker).is_pending());
    assert!(listener2.poll(&waker).is_pending());
    assert!(listener3.poll(&waker).is_pending());
    notify.notify_one();
    assert!(listener1.poll(&waker).is_ready());
    assert!(listener2.poll(&waker).is_pending());
    assert!(listener3.poll(&waker).is_pending());
    notify.notify_one();
    assert!(listener1.poll(&waker).is_ready());
    assert!(listener2.poll(&waker).is_pending());
    assert!(listener3.poll(&waker).is_pending());
    notify.notify_one();
    assert!(listener1.poll(&waker).is_ready());
    assert!(listener2.poll(&waker).is_pending());
    assert!(listener3.poll(&waker).is_pending());
}

#[test]
fn claim_takes_one_permit_if_there_is_one() {
    assert_eq!(claim(0), None);
    assert_eq!(claim(1), Some(0));
    assert_eq!(claim(usize::MAX), Some(usize::MAX - 1));
}

#[test]
fn notify_one_wakes_the_parked_task() {
    let notify: Notify<2> = Notify::new();
    let (waker, count) = new_count_waker();
    let mut listener = notify.listen();
    assert!(listener.poll(&waker).is_pending());
    assert_eq!(count.get(), 0);
    assert!(!notify.had_notified());
    notify.notify_one();
    assert_eq!(count.get(), 1);
    assert!(notify.had_notified());
    assert!(listener.poll(&waker).is_ready());
    assert!(!notify.had_notified());
}

#[test]
fn permits_wait_for_a_late_listener() {
    let notify: Notify<2> = Notify::new();
    let waker = noop_waker();
    notify.notify_one();
    notify.notify_one();
    notify.notify_one();
    let mut listener = notify.listen();
    assert_eq!(listener.poll_next(&waker), Poll::Ready(Some(())));
    assert!(notify.had_notified());
    let mut other = notify.listen();
    assert_eq!(other.poll_next(&waker), Poll::Ready(Some(())));
    assert_eq!(listener.poll_next(&waker), Poll::Ready(Some(())));
    assert!(!notify.had_notified());
    assert_eq!(listener.poll_next(&waker), Poll::Pending);
    assert_eq!(other.poll_next(&waker), Poll::Pending);
}

#[test]
fn as_many_listens_complete_as_were_notified() {
    let notify: Notify<4> = Notify::new();
    let waker = noop_waker();
    let mut listeners = vec![notify.listen(), notify.listen(), notify.listen()];
    let mut completed = 0;
    for round in 0..5 {
        if round % 2 == 0 {
            notify.notify_one();
            notify.notify_one();
        }
        for listener in listeners.iter_mut() {
            if listener.poll(&waker).is_ready() {
                completed += 1;
            }
        }
    }
    assert_eq!(completed, 6);
    assert!(!notify.had_notified());
}

#[test]
fn notify_waiters_wakes_each_parked_task_with_a_permit() {
    let notify: Notify<3> = Notify::new();
    let (waker, count) = new_count_waker();
    let mut first = notify.listen();
    let mut second = notify.listen();
    assert_eq!(notify.notify_waiters(), 0);
    assert!(!notify.had_notified());
    assert!(first.poll(&waker).is_pending());
    assert!(second.poll(&waker).is_pending());
    assert_eq!(notify.notify_waiters(), 2);
    assert_eq!(count.get(), 2);
    assert!(first.poll(&waker).is_ready());
    assert!(second.poll(&waker).is_ready());
    assert!(!notify.had_notified());
    let mut late = notify.listen();
    assert!(late.poll(&waker).is_pending());
}

#[test]
fn listener_without_a_place_wakes_itself() {
    let notify: Notify<1> = Notify::new();
    let (waker, count) = new_count_waker();
    let mut first = notify.listen();
    let mut second = notify.listen();
    assert!(first.pendable());
    assert!(first.pendable());
    assert!(!second.pendable());
    assert!(second.poll(&waker).is_pending());
    assert_eq!(count.get(), 1);
    drop(first);
    assert!(second.pendable());
}

#[test]
fn dropped_listener_is_not_woken() {
    let notify: Notify<2> = Notify::new();
    let (waker, count) = new_count_waker();
    let mut listener = notify.listen();
    assert!(listener.poll(&waker).is_pending());
    drop(listener);
    notify.notify_one();
    assert_eq!(count.get(), 0);
    assert!(notify.had_notified());
}

#[test]
fn versioned_notify_releases_every_listener_once() {
    let notify: versioned::Notify<2> = versioned::Notify::new();
    let (waker, count) = new_count_waker();
    let mut first = notify.listen();
    let mut second = notify.listen();
    assert!(first.poll(&waker).is_pending());
    assert!(second.poll(&waker).is_pending());
    assert_eq!(notify.notify(), 2);
    assert_eq!(count.get(), 2);
    assert!(first.poll(&waker).is_ready());
    assert!(second.poll(&waker).is_ready());
    assert!(first.poll(&waker).is_pending());
    assert!(second.poll(&waker).is_pending());
    notify.notify();
    notify.notify();
    assert!(first.poll(&waker).is_ready());
    assert!(first.poll(&waker).is_pending());
    assert!(second.poll(&waker).is_ready());
    assert!(second.poll(&waker).is_pending());
}

#[test]
fn versioned_listener_sees_only_later_edges() {
    let notify: versioned::Notify<1> = versioned::Notify::new();
    let waker = noop_waker();
    notify.notify();
    let mut late = notify.listen();
    assert!(late.poll(&waker).is_pending());
    assert_eq!(notify.notify(), 1);
    assert!(late.poll(&waker).is_ready());
}

#[test]
fn advance_never_goes_back() {
    let mut seen = 3usize;
    assert!(!versioned::advance(&mut seen, 2));
    assert_eq!(seen, 3);
    assert!(!versioned::advance(&mut seen, 3));
    assert_eq!(seen, 3);
    assert!(versioned::advance(&mut seen, 9));
    assert_eq!(seen, 9);
}

#[test]
fn notify_if_ok_notifies_on_success_only() {
    let notify: Notify<1> = Notify::new();
    let (waker, count) = new_count_waker();
    let mut listener = notify.listen();
    assert!(listener.poll(&waker).is_pending());
    assert_eq!(notify.notify_if_ok::<u8, &str>(Err("full")), Err("full"));
    assert_eq!(count.get(), 0);
    assert!(!notify.had_notified());
    assert_eq!(notify.notify_if_ok::<u8, &str>(Ok(3)), Ok(3));
    assert_eq!(count.get(), 1);
    assert!(notify.had_notified());
    assert!(listener.poll(&waker).is_ready());
}

#[test]
fn notify_if_some_notifies_on_a_value_only() {
    let notify: Notify<1> = Notify::new();
    assert_eq!(notify.notify_if_some::<u8>(None), None);
    assert!(!notify.had_notified());
    assert_eq!(notify.notify_if_some(Some(4u8)), Some(4));
    assert!(notify.had_notified());
}

#[test]
fn notify_waiters_if_any_needs_a_taker() {
    let notify: Notify<2> = Notify::new();
    let (waker, count) = new_count_waker();
    let mut listener = notify.listen();
    assert!(listener.poll(&waker).is_pending());
    assert_eq!(notify.notify_waiters_if_any(0), 0);
    assert_eq!(count.get(), 0);
    assert_eq!(notify.notify_waiters_if_any(5), 5);
    assert_eq!(count.get(), 1);
    assert!(listener.poll(&waker).is_ready());
    assert!(!notify.had_notified());
}

#[test]
fn item_of_a_stream_poll() {
    assert_eq!(Poll::Ready(Some(3)).item(), Poll::Ready(3));
    assert_eq!(Poll::<Option<u8>>::Ready(None).item(), Poll::Pending);
    assert_eq!(Poll::<Option<u8>>::Pending.item(), Poll::Pending);
}

#[test]
fn after_try_takes_the_listener_through_its_poll() {
    assert_eq!(after_try(Polling::First, true), Polling::Done { ready: true });
    assert_eq!(after_try(Polling::First, false), Polling::Parking);
    assert_eq!(after_try(Polling::Second, true), Polling::Done { ready: true });
    assert_eq!(after_try(Polling::Second, false), Polling::Done { ready: false });
    assert_eq!(report(Polling::Done { ready: true }), Poll::Ready(Some(())));
    assert_eq!(report(Polling::Done { ready: false }), Poll::Pending);
}

#[test]
fn broadcast_step_counts_the_woken() {
    assert_eq!(broadcast_step(0, true), Some(1));
    assert_eq!(broadcast_step(4, true), Some(5));
    assert_eq!(broadcast_step(4, false), None);
}

#[test]
fn ready_on_the_first_try_reserves_no_place() {
    let notify: Notify<1> = Notify::new();
    let waker = noop_waker();
    notify.notify_one();
    let mut first = notify.listen();
    assert!(first.poll(&waker).is_ready());
    let mut second = notify.listen();
    assert!(second.pendable());
    assert!(!first.pendable());
}
