use async_ach::pubsub::heap;
use async_ach::pubsub::heapless;
use async_ach::pubsub::Publisher;
use async_ach::task::Poll;
use futures_test::task::new_count_waker;
use futures_test::task::noop_waker;

#[test]
fn pubsub_base() {
    let publisher: Publisher<usize, 2, 2, 2> = Publisher::new(false);
    let waker = noop_waker();
    let sub1 = publisher.subscribe().unwrap();
    let sub2 = publisher.subscribe().unwrap();
    assert!(publisher.subscribe().is_none());

    assert_eq!(publisher.send(1), 2);
    assert_eq!(sub1.recv().poll_next(&waker), Poll::Ready(Some(1)));
    assert_eq!(sub2.recv().poll_next(&waker), Poll::Ready(Some(1)));
    let mut seen1 = vec![1];
    let mut seen2 = vec![1];
    for v in 2..=4 {
        assert_eq!(publisher.send(v), 2);
        if v % 2 == 0 {
            continue;
        }
        while let Poll::Ready(got) = sub1.recv().poll(&waker) {
            seen1.push(got);
        }
        while let Poll::Ready(Some(got)) = sub2.recv().poll_next(&waker) {
            seen2.push(got);
        }
    }
    while let Ok(got) = sub1.try_recv() {
        seen1.push(got);
    }
    while let Ok(got) = sub2.try_recv() {
        seen2.push(got);
    }
    assert_eq!(seen1, vec![1, 2, 3, 4]);
    assert_eq!(seen2, vec![1, 2, 3, 4]);
}

#[test]
fn pubsub_send_counts_the_queues_that_took_the_value() {
    let publisher: Publisher<usize, 1, 1, 3> = Publisher::new(false);
    assert_eq!(publisher.send(0), 0);
    let sub1 = publisher.subscribe().unwrap();
    assert_eq!(publisher.send(1), 1);
    let sub2 = publisher.subscribe().unwrap();
    assert_eq!(publisher.send(2), 1);
    assert_eq!(sub1.try_recv().unwrap(), 1);
    assert_eq!(publisher.send(3), 1);
    assert_eq!(sub2.try_recv().unwrap(), 2);
    assert_eq!(sub1.try_recv().unwrap(), 3);
    let empty = sub2.try_recv().unwrap_err();
    assert!(!empty.retry);
    drop(sub1);
    assert_eq!(publisher.send(4), 1);
    assert_eq!(sub2.try_recv().unwrap(), 4);
}

#[test]
fn pubsub_send_wakes_every_waiting_subscriber() {
    let publisher: Publisher<usize, 2, 2, 2> = Publisher::new(false);
    let (waker, count) = new_count_waker();
    let sub1 = publisher.subscribe().unwrap();
    let sub2 = publisher.subscribe().unwrap();
    let mut recv1 = sub1.recv();
    let mut recv2 = sub2.recv();
    assert!(recv1.poll(&waker).is_pending());
    assert!(recv2.poll_next(&waker).is_pending());
    assert_eq!(publisher.send(7), 2);
    assert_eq!(count.get(), 2);
    assert_eq!(recv1.poll(&waker), Poll::Ready(7));
    assert_eq!(recv2.poll_next(&waker), Poll::Ready(Some(7)));
}

#[test]
fn pubsub_heapless() {
    let publisher: heapless::Publisher<usize, 2, 2> = heapless::Publisher::new(true);
    let (waker, count) = new_count_waker();
    let sub1 = publisher.subscribe().unwrap();
    let sub2 = publisher.subscribe().unwrap();
    assert!(publisher.subscribe().is_none());
    let mut recv1 = sub1.recv();
    assert!(recv1.poll_next(&waker).is_pending());
    assert_eq!(publisher.send(1), 2);
    assert_eq!(count.get(), 1);
    assert_eq!(publisher.send(2), 2);
    assert_eq!(publisher.send(3), 0);
    assert_eq!(recv1.poll_next(&waker), Poll::Ready(Some(1)));
    assert_eq!(recv1.poll(&waker), Poll::Ready(2));
    assert_eq!(sub2.try_recv().unwrap(), 1);
    assert_eq!(sub2.recv().poll(&waker), Poll::Ready(2));
    assert!(!sub2.try_recv().unwrap_err().retry);
}

#[test]
fn pubsub_heap() {
    let publisher: heap::Publisher<usize, 2, 2> = heap::Publisher::new(false);
    let (waker, count) = new_count_waker();
    let sub1 = publisher.subscribe().unwrap();
    let sub2 = publisher.subscribe().unwrap();
    assert!(publisher.subscribe().is_none());
    let mut recv2 = sub2.recv();
    assert!(recv2.poll(&waker).is_pending());
    assert_eq!(publisher.send(1), 2);
    assert_eq!(count.get(), 1);
    assert_eq!(recv2.poll(&waker), Poll::Ready(1));
    assert_eq!(publisher.send(2), 2);
    drop(publisher);
    assert_eq!(sub1.try_recv().unwrap(), 1);
    assert_eq!(sub1.recv().poll_next(&waker), Poll::Ready(Some(2)));
    assert_eq!(recv2.poll_next(&waker), Poll::Ready(Some(2)));
    assert!(!sub1.try_recv().unwrap_err().retry);
}

#[test]
fn recv_settle_hands_out_what_the_queue_gave() {
    let refusal = || async_ach::error::Error { state: ach_util::MemoryState::Uninitialized, input: (), retry: false };
    assert_eq!(async_ach::pubsub::Recv::<usize, 2, 2, 2>::settle(Ok(5)), Some(Some(5)));
    assert_eq!(async_ach::pubsub::Recv::<usize, 2, 2, 2>::settle(Err(refusal())), None);
    assert_eq!(heapless::Recv::<usize, 2, 2>::settle(Ok(6)), Some(Some(6)));
    assert_eq!(heapless::Recv::<usize, 2, 2>::settle(Err(refusal())), None);
    assert_eq!(heap::Recv::<usize, 2, 2>::settle(Ok(7)), Some(Some(7)));
    assert_eq!(heap::Recv::<usize, 2, 2>::settle(Err(refusal())), None);
}
