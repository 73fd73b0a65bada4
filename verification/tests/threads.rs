use async_ach::notify::Notify;
use async_ach::ring::Ring;
use async_ach::spsc::Spsc;
use async_ach::task;
use core::future::Future;
use core::pin::Pin;
use core::task::Context;
use core::task::Poll;
use core::task::Waker;
use core::time::Duration;
use futures_executor::ThreadPool;
use std::sync::mpsc;

const TIMES: usize = 10_000;

struct Drive<F>(F);

impl<T, F: FnMut(&Waker) -> task::Poll<T> + Unpin> Future for Drive<F> {
    type Output = T;

    fn poll(self: Pin<&mut Self>, cx: &mut Context<'_>) -> Poll<T> {
        match (self.get_mut().0)(cx.waker()) {
            task::Poll::Ready(value) => Poll::Ready(value),
            task::Poll::Pending => Poll::Pending,
        }
    }
}

async fn push(ring: &Ring<usize, 2, 2, 2>, value: usize) {
    let mut wait = ring.push(value);
    Drive(move |waker: &Waker| wait.poll(waker)).await
}

async fn pop(ring: &Ring<usize, 2, 2, 2>) -> usize {
    let mut wait = ring.pop();
    Drive(move |waker: &Waker| wait.poll(waker)).await
}

async fn listen(notify: &Notify<2>) {
    let mut wait = notify.listen();
    Drive(move |waker: &Waker| wait.poll(waker)).await
}

#[test]
fn ring_mpmc_receives_what_was_sent() {
    let ring: &'static Ring<usize, 2, 2, 2> = Box::leak(Box::new(Ring::new()));
    let executor = ThreadPool::new().unwrap();
    let (done, results) = mpsc::channel::<Vec<usize>>();
    for producer in 0..2 {
        executor.spawn_ok(async move {
            for i in producer * TIMES..(producer + 1) * TIMES {
                push(ring, i).await;
            }
        });
    }
    for _ in 0..2 {
        let done = done.clone();
        executor.spawn_ok(async move {
            let mut got = Vec::new();
            for _ in 0..TIMES {
                got.push(pop(ring).await);
            }
            done.send(got).unwrap();
        });
    }
    let mut all = Vec::new();
    for _ in 0..2 {
        let got = results.recv_timeout(Duration::from_secs(15)).unwrap();
        let firsts: Vec<usize> = got.iter().copied().filter(|v| *v < TIMES).collect();
        let seconds: Vec<usize> = got.iter().copied().filter(|v| *v >= TIMES).collect();
        assert!(firsts.windows(2).all(|w| w[0] < w[1]));
        assert!(seconds.windows(2).all(|w| w[0] < w[1]));
        all.extend(got);
    }
    all.sort();
    assert_eq!(all, (0..2 * TIMES).collect::<Vec<usize>>());
    assert_eq!(ring.len(), 0);
}

#[test]
fn spsc_threads_keep_the_order() {
    let spsc: &'static Spsc<usize, 2> = Box::leak(Box::new(Spsc::new()));
    let executor = ThreadPool::new().unwrap();
    let (done, results) = mpsc::channel::<Vec<usize>>();
    executor.spawn_ok(async move {
        let mut sender = spsc.take_sender().unwrap();
        for i in 0..TIMES {
            let mut wait = sender.send(i);
            Drive(|waker: &Waker| wait.poll(waker)).await;
        }
    });
    executor.spawn_ok(async move {
        let mut recver = spsc.take_recver().unwrap();
        let mut got = Vec::new();
        for _ in 0..TIMES {
            let mut wait = recver.recv();
            got.push(Drive(|waker: &Waker| wait.poll(waker)).await);
        }
        done.send(got).unwrap();
    });
    let got = results.recv_timeout(Duration::from_secs(15)).unwrap();
    assert_eq!(got, (0..TIMES).collect::<Vec<usize>>());
}

#[test]
fn notify_threads_lose_no_permit() {
    let to_consumer: &'static Notify<2> = Box::leak(Box::new(Notify::new()));
    let to_producer: &'static Notify<2> = Box::leak(Box::new(Notify::new()));
    let executor = ThreadPool::new().unwrap();
    let (done, results) = mpsc::channel::<bool>();
    let producer_done = done.clone();
    executor.spawn_ok(async move {
        to_consumer.notify_one();
        for _ in 0..TIMES - 1 {
            listen(to_producer).await;
            to_consumer.notify_one();
        }
        listen(to_producer).await;
        producer_done.send(to_producer.had_notified()).unwrap();
    });
    executor.spawn_ok(async move {
        for _ in 0..TIMES {
            listen(to_consumer).await;
            to_producer.notify_one();
        }
        done.send(to_consumer.had_notified()).unwrap();
    });
    assert!(!results.recv_timeout(Duration::from_secs(15)).unwrap());
    assert!(!results.recv_timeout(Duration::from_secs(15)).unwrap());
}
