use ach_util::MemoryState;
use async_ach::cell::release_signal;
use async_ach::cell::Cell;
use async_ach::cell::Signal;
use async_ach::task::Poll;
use futures_test::task::new_count_waker;
use futures_test::task::noop_waker;
use async_ach::cell::Take;

#[test]
fn cell_base() {
    let cell: Cell<usize, 1, 1> = Cell::new();
    let waker = noop_waker();

    let mut get = cell.get();
    assert!(get.poll(&waker).is_ready());

    let mut take = cell.take();
    assert!(take.poll(&waker).is_ready());

    let mut replace = cell.replace(1);
    assert!(replace.poll(&waker).is_ready());

    let mut set = cell.set(2);
    assert!(set.poll(&waker).is_ready());
}

#[test]
fn cell_basics() {
    let cell: Cell<usize, 1, 1> = Cell::new();
    let waker = noop_waker();

    assert_eq!(cell.take().poll(&waker), Poll::Ready(None));
    assert_eq!(cell.replace(1).poll(&waker), Poll::Ready(None));
    let mut set = cell.set(2);
    match set.poll(&waker) {
        Poll::Ready(Err(e)) => {
            assert_eq!(e.state, MemoryState::Initialized);
            assert_eq!(e.input, 2);
            assert!(!e.retry);
        }
        _ => panic!("a full cell takes no second value"),
    }
    assert!(set.is_terminated());
    assert_eq!(cell.take().poll(&waker), Poll::Ready(Some(1)));
    let mut set = cell.set(2);
    assert!(matches!(set.poll(&waker), Poll::Ready(Ok(()))));
    let mut get = cell.get();
    match get.poll(&waker) {
        Poll::Ready(Ok(held)) => {
            assert_eq!(*held.get(), 2);
            assert_eq!(*held, 2);
        }
        _ => panic!("a full cell hands out its value"),
    };
}

#[test]
fn cell_set_then_take_gives_the_value_back() {
    for v in [0usize, 1, 77, usize::MAX] {
        let cell: Cell<usize, 1, 1> = Cell::new();
        assert!(cell.try_set(v).is_ok());
        assert_eq!(cell.try_take().unwrap(), Some(v));
        assert_eq!(cell.try_take().unwrap(), None);
    }
}

#[test]
fn cell_refuses_to_change_a_value_that_is_read() {
    let cell: Cell<String, 1, 1> = Cell::new();
    assert!(cell.try_get().is_err());
    cell.try_set("a".to_string()).unwrap();
    let held = cell.try_get().unwrap();
    let refused = cell.try_replace("b".to_string()).unwrap_err();
    assert_eq!(refused.input, "b");
    assert!(refused.retry);
    assert!(cell.try_take().is_err());
    drop(held);
    assert_eq!(cell.try_take().unwrap(), Some("a".to_string()));
}

#[test]
fn cell_try_set_hands_a_refused_value_back() {
    let cell: Cell<String, 1, 1> = Cell::new();
    cell.try_set("first".to_string()).unwrap();
    let refused = cell.try_set("second".to_string()).unwrap_err();
    assert_eq!(refused.input, "second");
    assert_eq!(refused.into_input(), "second");
    assert_eq!(cell.try_replace("third".to_string()).unwrap(), Some("first".to_string()));
    assert_eq!(cell.try_take().unwrap(), Some("third".to_string()));
}

#[test]
fn cell_pending_replace_keeps_its_value_and_takes_nothing() {
    let cell: Cell<usize, 2, 2> = Cell::new();
    let (waker, count) = new_count_waker();
    cell.try_set(1).unwrap();
    let held = cell.try_get().unwrap();
    let mut replace = cell.replace(2);
    assert_eq!(replace.poll(&waker), Poll::Pending);
    assert!(!replace.is_terminated());
    assert_eq!(*held.get(), 1);
    let woken = count.get();
    drop(replace);
    drop(held);
    assert_eq!(count.get(), woken);
    assert_eq!(cell.try_take().unwrap(), Some(1));
}

#[test]
fn cell_last_reference_wakes_the_waiting_replace() {
    let cell: Cell<usize, 2, 2> = Cell::new();
    let (waker, count) = new_count_waker();
    cell.try_set(1).unwrap();
    let held = cell.try_get().unwrap();
    let mut replace = cell.replace(2);
    assert_eq!(replace.poll(&waker), Poll::Pending);
    let woken = count.get();
    drop(held);
    assert_eq!(count.get(), woken + 1);
    assert_eq!(replace.poll(&waker), Poll::Ready(Some(1)));
    assert!(replace.is_terminated());
    assert_eq!(cell.try_take().unwrap(), Some(2));
}

#[test]
fn cell_take_waits_for_the_readers() {
    let cell: Cell<usize, 2, 2> = Cell::new();
    let (waker, count) = new_count_waker();
    cell.try_set(5).unwrap();
    let held = cell.try_get().unwrap();
    let mut take = cell.take();
    assert_eq!(take.poll(&waker), Poll::Pending);
    drop(held);
    assert!(count.get() >= 1);
    assert_eq!(take.poll(&waker), Poll::Ready(Some(5)));
}

#[test]
fn release_signal_goes_to_the_side_that_can_go_on() {
    assert_eq!(release_signal(Ok(1), true), Signal::Consumer);
    assert_eq!(release_signal(Ok(1), false), Signal::Producer);
    assert_eq!(release_signal(Ok(2), false), Signal::Nobody);
    assert_eq!(release_signal(Ok(2), true), Signal::Nobody);
    assert_eq!(release_signal(Ok(0), false), Signal::Nobody);
    assert_eq!(release_signal(Err(MemoryState::Uninitialized), true), Signal::Nobody);
}

#[test]
fn cell_new_with_holds_its_value() {
    let cell: Cell<usize, 1, 1> = Cell::new_with(5);
    assert_eq!(cell.try_set(6).unwrap_err().input, 6);
    assert_eq!(*cell.try_get().unwrap(), 5);
    assert_eq!(cell.try_take().unwrap(), Some(5));
    assert_eq!(cell.try_take().unwrap(), None);
}

#[test]
fn setter_settle_ends_on_success_and_on_a_lasting_refusal() {
    let cell: Cell<usize, 1, 1> = Cell::new();
    let refusal = |input: usize, retry: bool| async_ach::error::Error {
        state: MemoryState::Erasing,
        input,
        retry,
    };
    let mut set = cell.set(1);
    assert!(set.settle(Err(refusal(7, true))).is_none());
    assert!(!set.is_terminated());
    match set.settle(Err(refusal(8, false))) {
        Some(Err(e)) => assert_eq!(e.input, 8),
        _ => panic!("a lasting refusal ends the wait"),
    }
    assert!(set.is_terminated());
    let mut set = cell.set(2);
    assert!(matches!(set.settle(Ok(())), Some(Ok(()))));
    assert!(set.is_terminated());
}

#[test]
fn replace_settle_hands_out_what_the_cell_held() {
    let cell: Cell<usize, 1, 1> = Cell::new();
    let mut replace = cell.replace(1);
    let refusal = async_ach::error::Error { state: MemoryState::Regaining, input: 9, retry: true };
    assert_eq!(replace.settle(Err(refusal)), None);
    assert!(!replace.is_terminated());
    assert_eq!(replace.settle(Ok(Some(4))), Some(Some(4)));
    assert!(replace.is_terminated());
    let mut replace = cell.replace(2);
    assert_eq!(replace.settle(Ok(None)), Some(None));
    assert!(replace.is_terminated());
}

#[test]
fn get_settle_goes_on_only_after_a_transient_refusal() {
    let refusal = |retry: bool| async_ach::error::Error { state: MemoryState::Initializing, input: (), retry };
    assert!(async_ach::cell::Get::<usize, 1, 1>::settle(Err(refusal(true))).is_none());
    match async_ach::cell::Get::<usize, 1, 1>::settle(Err(refusal(false))) {
        Some(Err(e)) => assert!(!e.retry),
        _ => panic!("a lasting refusal is the result"),
    }
    let cell: Cell<usize, 1, 1> = Cell::new_with(3);
    match async_ach::cell::Get::settle(cell.try_get()) {
        Some(Ok(held)) => assert_eq!(*held, 3),
        _ => panic!("a reference is the result"),
    };
}

#[test]
fn take_settle_hands_out_what_the_cell_gave() {
    let refusal = async_ach::error::Error { state: MemoryState::Regaining, input: (), retry: true };
    assert_eq!(Take::<usize, 1, 1>::settle(Ok(Some(1))), Some(Some(1)));
    assert_eq!(Take::<usize, 1, 1>::settle(Ok(None)), Some(None));
    assert_eq!(Take::<usize, 1, 1>::settle(Err(refusal)), None);
    assert!(Take::<usize, 1, 1>::parked(Poll::Pending, Poll::Pending));
    assert!(!Take::<usize, 1, 1>::parked(Poll::Ready(()), Poll::Pending));
    assert!(!Take::<usize, 1, 1>::parked(Poll::Pending, Poll::Ready(())));
    assert!(!Take::<usize, 1, 1>::parked(Poll::Ready(()), Poll::Ready(())));
}

#[test]
fn cell_slot_is_the_container() {
    let cell: Cell<usize, 1, 1> = Cell::new_with(4);
    assert!(cell.slot().inner.is_initialized());
    assert_eq!(cell.try_take().unwrap(), Some(4));
    assert!(!cell.slot().inner.is_initialized());
}
