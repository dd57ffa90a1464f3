use laika::shotgun::channel;

#[test]
fn test_basic() {
    let (tx, rx) = channel();

    assert_eq!(rx.try_recv(), None);
    assert_eq!(rx.try_recv(), None);

    tx.send(());

    assert_eq!(rx.try_recv(), Some(()));
    assert_eq!(rx.try_recv(), Some(()));
}

#[test]
fn test_work_without_receiver() {
    let (tx, rx) = channel();
    assert_eq!(rx.try_recv(), None);

    drop(rx);

    tx.send(());
}

#[test]
fn test_work_without_sender() {
    let (tx, rx) = channel::<()>();

    assert_eq!(rx.try_recv(), None);

    drop(tx);

    assert_eq!(rx.try_recv(), None);
}

#[test]
fn test_work_with_multiple_receivers() {
    let (tx, rx) = channel();

    let rx1 = rx.clone();
    let rx2 = rx.clone();

    assert_eq!(rx.try_recv(), None);
    assert_eq!(rx1.try_recv(), None);
    assert_eq!(rx2.try_recv(), None);

    tx.send(1337);

    assert_eq!(rx.try_recv(), Some(1337));
    assert_eq!(rx1.try_recv(), Some(1337));
    assert_eq!(rx2.try_recv(), Some(1337));
}

#[test]
fn value_is_kept_on_every_later_call() {
    let (tx, rx) = channel::<i32>();

    assert_eq!(rx.try_recv(), None);
    assert_eq!(rx.try_recv(), None);

    tx.send(12);

    assert_eq!(rx.try_recv(), Some(12));
    assert_eq!(rx.try_recv(), Some(12));
    assert_eq!(rx.try_recv(), Some(12));
}

#[test]
fn duplicate_made_after_send_sees_the_value() {
    let (tx, rx) = channel::<i32>();

    tx.send(7);

    let late = rx.clone();
    assert_eq!(late.try_recv(), Some(7));
    assert_eq!(rx.try_recv(), Some(7));
}

#[test]
fn send_with_value_type_string() {
    let (tx, rx) = channel::<String>();

    assert_eq!(rx.try_recv(), None);

    tx.send(String::from("hello"));

    assert_eq!(rx.try_recv(), Some(String::from("hello")));
    assert_eq!(rx.try_recv(), Some(String::from("hello")));
}
