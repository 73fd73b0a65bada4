use async_ach::mpmc;
use async_ach::ring::Ring;
use async_ach::task::Poll;
use futures_test::task::new_count_waker;
use futures_test::task::noop_waker;
use async_ach::ring::Pop;

#[test]
fn ring_base() {
    let ring: Ring<usize, 2, 2, 2> = Ring::new();
    let waker = noop_waker();

    let mut pop1 = ring.pop();
    assert!(pop1.poll(&waker).is_pending());
    let mut push1 = ring.push(1);
    assert!(push1.poll(&waker).is_ready());
    assert_eq!(pop1.poll(&waker), Poll::Ready(1));

    let mut push2 = ring.push(2);
    assert!(push2.poll(&waker).is_ready());
    let mut push3 = ring.push(3);
    assert!(push3.poll(&waker).is_ready());
    let mut push4 = ring.push(4);
    assert!(push4.poll(&waker).is_pending());
    let mut pop2 = ring.pop();
    assert_eq!(pop2.poll(&waker), Poll::Ready(2));
    assert!(push4.poll(&waker).is_ready());
}

#[test]
fn ring_try_push_hands_a_refused_value_back() {
    let ring: Ring<String, 1, 1, 1> = Ring::new();
    assert_eq!(ring.len(), 0);
    ring.try_push("a".to_string()).unwrap();
    assert_eq!(ring.len(), 1);
    let refused = ring.try_push("b".to_string()).unwrap_err();
    assert_eq!(refused.input, "b");
    assert!(!refused.retry);
    assert_eq!(ring.try_pop().unwrap(), "a");
    let empty = ring.try_pop().unwrap_err();
    assert!(!empty.retry);
}

#[test]
fn ring_is_first_in_first_out() {
    let ring: Ring<usize, 4, 1, 1> = Ring::new();
    for round in 0..10 {
        for i in 0..4 {
            ring.try_push(round * 4 + i).unwrap();
        }
        assert!(ring.try_push(0).is_err());
        for i in 0..4 {
            assert_eq!(ring.try_pop().unwrap(), round * 4 + i);
        }
        assert!(ring.try_pop().is_err());
    }
}

#[test]
fn ring_push_wakes_the_waiting_pop() {
    let ring: Ring<usize, 2, 2, 2> = Ring::new();
    let (waker, count) = new_count_waker();
    let mut pop = ring.pop();
    assert!(pop.poll(&waker).is_pending());
    assert_eq!(count.get(), 0);
    ring.try_push(9).unwrap();
    assert_eq!(count.get(), 1);
    assert_eq!(pop.poll(&waker), Poll::Ready(9));
}

#[test]
fn ring_pending_push_keeps_its_value() {
    let ring: Ring<usize, 1, 2, 2> = Ring::new();
    let (waker, count) = new_count_waker();
    ring.try_push(1).unwrap();
    let mut push = ring.push(2);
    assert!(!push.is_terminated());
    assert!(push.poll(&waker).is_pending());
    assert!(push.poll(&waker).is_pending());
    assert!(!push.is_terminated());
    assert_eq!(ring.len(), 1);
    assert_eq!(ring.try_pop().unwrap(), 1);
    assert!(count.get() >= 1);
    assert!(push.poll(&waker).is_ready());
    assert!(push.is_terminated());
    assert_eq!(ring.try_pop().unwrap(), 2);
    assert!(ring.try_pop().is_err());
}

#[test]
fn ring_dropped_push_leaves_the_queue_as_it_was() {
    let ring: Ring<usize, 1, 2, 2> = Ring::new();
    let waker = noop_waker();
    ring.try_push(1).unwrap();
    let mut push = ring.push(2);
    assert!(push.poll(&waker).is_pending());
    drop(push);
    assert_eq!(ring.try_pop().unwrap(), 1);
    assert!(ring.try_pop().is_err());
}

#[test]
fn ring_hands_out_every_value_once() {
    let ring: Ring<usize, 2, 2, 2> = Ring::new();
    let waker = noop_waker();
    let mut got = Vec::new();
    let mut next = [0usize, 100];
    let mut pushes = vec![ring.push(next[0]), ring.push(next[1])];
    let mut pops = vec![ring.pop(), ring.pop()];
    for step in 0..400 {
        let who = step % 2;
        if step % 3 != 0 && next[who] % 100 < 50 {
            if pushes[who].poll(&waker).is_ready() {
                next[who] += 1;
                pushes[who] = ring.push(next[who]);
            }
        } else if let Poll::Ready(v) = pops[who].poll(&waker) {
            got.push(v);
            pops[who] = ring.pop();
        }
    }
    drop(pushes);
    while let Ok(v) = ring.try_pop() {
        got.push(v);
    }
    let from_first: Vec<usize> = got.iter().copied().filter(|v| *v < 100).collect();
    let from_second: Vec<usize> = got.iter().copied().filter(|v| *v >= 100).collect();
    assert_eq!(from_first, (0..next[0]).collect::<Vec<usize>>());
    assert_eq!(from_second, (100..next[1]).collect::<Vec<usize>>());
    assert_eq!(next, [50, 150]);
}

#[test]
fn mpmc_handles_share_one_queue() {
    let channel: mpmc::heapless::Mpmc<usize, 2, 1, 1> = mpmc::heapless::Mpmc::new();
    let waker = noop_waker();
    let tx = channel.sender();
    let rx = channel.recver();
    assert!(rx.try_recv().is_err());
    tx.try_send(1).unwrap();
    assert!(tx.send(2).poll(&waker).is_ready());
    assert_eq!(tx.try_send(3).unwrap_err().input, 3);
    assert_eq!(channel.len(), 2);
    let mut blocked = tx.send(4);
    assert!(blocked.poll(&waker).is_pending());
    assert_eq!(rx.try_recv().unwrap(), 1);
    assert!(blocked.poll(&waker).is_ready());
    assert_eq!(rx.recv().poll(&waker), Poll::Ready(2));
    assert_eq!(rx.recv().poll(&waker), Poll::Ready(4));
    assert!(rx.recv().poll(&waker).is_pending());
}

#[test]
fn mpmc_heap_channel_is_shared_by_clones() {
    let (tx, rx) = mpmc::heap::channel::<usize, 2, 2, 2>();
    let waker = noop_waker();
    let tx2 = tx.clone();
    let rx2 = rx.clone();
    tx.try_send(1).unwrap();
    assert!(tx2.send(2).poll(&waker).is_ready());
    assert_eq!(tx2.try_send(3).unwrap_err().input, 3);
    assert_eq!(rx2.try_recv().unwrap(), 1);
    assert_eq!(rx.recv().poll(&waker), Poll::Ready(2));
    assert!(rx.try_recv().is_err());
    assert!(rx2.recv().poll(&waker).is_pending());
}

#[test]
fn push_settle_keeps_what_was_refused() {
    let ring: Ring<usize, 1, 1, 1> = Ring::new();
    let mut push = ring.push(5);
    let refused = ring_refusal(&ring, 6);
    assert!(!push.settle(Err(refused)));
    assert!(!push.is_terminated());
    assert!(push.settle(Ok(())));
    assert!(push.is_terminated());
    assert_eq!(ring.try_pop().unwrap(), 0);
    assert!(ring.try_pop().is_err());
}

fn ring_refusal(ring: &Ring<usize, 1, 1, 1>, value: usize) -> async_ach::error::Error<usize> {
    ring.try_push(0).unwrap();
    ring.try_push(value).unwrap_err()
}

#[test]
fn pop_settle_hands_out_what_the_queue_gave() {
    let ring: Ring<usize, 1, 1, 1> = Ring::new();
    assert_eq!(Pop::<usize, 1, 1, 1>::settle(Ok(7)), Some(7));
    assert_eq!(Pop::<usize, 1, 1, 1>::settle(ring.try_pop()), None);
}
