use std::sync::atomic::{AtomicUsize, Ordering};
use std::sync::Arc;
use std::task::{Wake, Waker};

use laika::shotgun::channel;

struct CountingWaker {
    wakes: AtomicUsize,
}

impl CountingWaker {
    fn new() -> Arc<CountingWaker> {
        Arc::new(CountingWaker { wakes: AtomicUsize::new(0) })
    }

    fn count(&self) -> usize {
        self.wakes.load(Ordering::SeqCst)
    }
}

impl Wake for CountingWaker {
    fn wake(self: Arc<Self>) {
        self.wakes.fetch_add(1, Ordering::SeqCst);
    }

    fn wake_by_ref(self: &Arc<Self>) {
        self.wakes.fetch_add(1, Ordering::SeqCst);
    }
}

#[test]
fn every_suspended_task_is_woken_by_send() {
    let (tx, rx) = channel::<u8>();
    let rx1 = rx.clone();
    let rx2 = rx.clone();

    let task1 = CountingWaker::new();
    let task2 = CountingWaker::new();
    let waker1 = Waker::from(task1.clone());
    let waker2 = Waker::from(task2.clone());

    assert_eq!(rx1.poll_recv(&waker1), None);
    assert_eq!(rx2.poll_recv(&waker2), None);
    assert_eq!(task1.count(), 0);
    assert_eq!(task2.count(), 0);

    tx.send(9);

    assert_eq!(task1.count(), 1);
    assert_eq!(task2.count(), 1);
    assert_eq!(rx1.poll_recv(&waker1), Some(9));
    assert_eq!(rx2.poll_recv(&waker2), Some(9));
}

#[test]
fn task_polling_without_send_is_never_woken() {
    let (tx, rx) = channel::<u8>();

    let task = CountingWaker::new();
    let waker = Waker::from(task.clone());

    assert_eq!(rx.poll_recv(&waker), None);
    assert_eq!(rx.poll_recv(&waker), None);
    assert_eq!(rx.poll_recv(&waker), None);
    assert_eq!(task.count(), 0);
    assert_eq!(rx.try_recv(), None);

    drop(tx);

    assert_eq!(rx.poll_recv(&waker), None);
    assert_eq!(task.count(), 0);
}

#[test]
fn repeated_polls_of_one_task_are_woken_once() {
    let (tx, rx) = channel::<u8>();

    let task = CountingWaker::new();
    let waker = Waker::from(task.clone());

    assert_eq!(rx.poll_recv(&waker), None);
    assert_eq!(rx.poll_recv(&waker), None);
    assert_eq!(rx.poll_recv(&waker), None);

    tx.send(3);

    assert_eq!(task.count(), 1);
    assert_eq!(rx.poll_recv(&waker), Some(3));
}

#[test]
fn poll_after_send_is_ready_and_registers_nothing() {
    let (tx, rx) = channel::<u8>();

    let task = CountingWaker::new();
    let waker = Waker::from(task.clone());

    tx.send(5);

    assert_eq!(rx.poll_recv(&waker), Some(5));
    assert_eq!(rx.poll_recv(&waker), Some(5));
    assert_eq!(task.count(), 0);
}
