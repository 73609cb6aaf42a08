use poll_channel::{
    channel, IdPool, Poll, Pollable, RecvError, RecvTimeoutError, TryRecvError, TIMEOUT,
};
use poll_channel::poll::ready_or_timeout;
use std::time::Duration;

fn short() -> Duration {
    Duration::from_millis(10)
}

#[test]
fn ids_strictly_increase_and_never_timeout() {
    let mut ids = IdPool::new();
    let mut last = -1;
    for _ in 0..50 {
        let (_tx, rx) = channel::<u8>(&mut ids);
        assert!(rx.id() > last);
        assert_ne!(rx.id(), TIMEOUT);
        assert_eq!(rx.tag(), rx.id());
        assert_eq!(Pollable::tag(&rx), rx.id());
        last = rx.id();
    }
    assert_eq!(last, 49);
}

#[test]
fn fifo_per_channel() {
    let mut ids = IdPool::new();
    let (tx, rx) = channel(&mut ids);
    for v in [5, 3, 9, 1] {
        assert!(tx.send(v).is_ok());
    }
    assert_eq!(rx.len(), 4);
    assert_eq!(rx.recv(), Ok(5));
    assert_eq!(rx.recv(), Ok(3));
    assert_eq!(rx.try_recv(), Ok(9));
    assert_eq!(rx.recv_timeout(short()), Ok(1));
    assert_eq!(rx.len(), 0);
}

#[test]
fn readiness_in_send_order_then_timeout() {
    let mut ids = IdPool::new();
    let (txa, rxa) = channel(&mut ids);
    let (txb, rxb) = channel(&mut ids);
    let group = Poll::new();
    group.add(&rxa);
    group.add(&rxb);
    txa.send("a").unwrap();
    txb.send("b").unwrap();
    assert_eq!(group.poll(short()), rxa.id());
    assert_eq!(group.poll(short()), rxb.id());
    assert_eq!(group.poll(short()), -1);
    assert_eq!(rxa.recv(), Ok("a"));
    assert_eq!(rxb.recv(), Ok("b"));
}

#[test]
fn unbound_send_still_delivers() {
    let mut ids = IdPool::new();
    let (tx, rx) = channel(&mut ids);
    assert!(tx.send(42u64).is_ok());
    assert_eq!(rx.recv(), Ok(42));
    let group = Poll::new();
    assert_eq!(group.poll(short()), TIMEOUT);
}

#[test]
fn rebinding_moves_announcements() {
    let mut ids = IdPool::new();
    let (tx1, rx) = channel(&mut ids);
    let g1 = Poll::new();
    let g2 = Poll::new();
    g1.add(&rx);
    tx1.send(1).unwrap();
    assert_eq!(g1.poll(short()), rx.id());
    g2.add(&rx);
    // a fresh handle looks the target up at its first send
    let tx2 = tx1.clone();
    tx2.send(2).unwrap();
    assert_eq!(g2.poll(short()), rx.id());
    assert_eq!(g1.poll(short()), TIMEOUT);
    assert_eq!(rx.recv(), Ok(1));
    assert_eq!(rx.recv(), Ok(2));
}

#[test]
fn rebinding_before_first_send() {
    let mut ids = IdPool::new();
    let (tx, rx) = channel(&mut ids);
    let g1 = Poll::new();
    let g2 = Poll::new();
    g1.add(&rx);
    g2.add(&rx);
    tx.send(1).unwrap();
    assert_eq!(g2.poll(short()), rx.id());
    assert_eq!(g1.poll(short()), TIMEOUT);
}

#[test]
fn first_send_fixes_the_target() {
    let mut ids = IdPool::new();
    let (tx, rx) = channel(&mut ids);
    let g1 = Poll::new();
    let g2 = Poll::new();
    g1.add(&rx);
    tx.send(1).unwrap();
    g2.add(&rx);
    tx.send(2).unwrap();
    assert_eq!(g1.poll(short()), rx.id());
    assert_eq!(g1.poll(short()), rx.id());
    assert_eq!(g2.poll(short()), TIMEOUT);
}

fn shareable_between_threads<T: Send + Sync>() {}

#[test]
fn handles_move_between_threads() {
    shareable_between_threads::<poll_channel::Sender<i32>>();
    shareable_between_threads::<poll_channel::Receiver<i32>>();
    shareable_between_threads::<Poll>();
}

#[test]
fn send_on_clone_is_announced() {
    let mut ids = IdPool::new();
    let (tx, rx) = channel(&mut ids);
    let group = Poll::new();
    group.append(&[&rx]);
    let other = tx.clone();
    other.send(7).unwrap();
    assert_eq!(group.poll(Duration::from_secs(1)), rx.id());
    assert_eq!(rx.recv(), Ok(7));
}

#[test]
fn send_to_dropped_receiver_returns_value() {
    let mut ids = IdPool::new();
    let (tx, rx) = channel(&mut ids);
    drop(rx);
    match tx.send(String::from("kept")) {
        Err(e) => assert_eq!(e.0, "kept"),
        Ok(()) => panic!("send to a dropped receiver succeeded"),
    }
}

#[test]
fn announcement_to_dropped_group_is_ignored() {
    let mut ids = IdPool::new();
    let (tx, rx) = channel(&mut ids);
    let group = Poll::new();
    group.add(&rx);
    drop(group);
    assert!(tx.send(3).is_ok());
    assert_eq!(rx.recv(), Ok(3));
}

#[test]
fn receive_errors() {
    let mut ids = IdPool::new();
    let (tx, rx) = channel::<i32>(&mut ids);
    assert_eq!(rx.try_recv(), Err(TryRecvError::Empty));
    assert_eq!(rx.recv_timeout(short()), Err(RecvTimeoutError::Timeout));
    drop(tx);
    assert_eq!(rx.try_recv(), Err(TryRecvError::Disconnected));
    assert_eq!(rx.recv_timeout(short()), Err(RecvTimeoutError::Disconnected));
    assert_eq!(rx.recv(), Err(RecvError));
}

#[test]
fn append_binds_every_receiver() {
    let mut ids = IdPool::new();
    let (t0, r0) = channel(&mut ids);
    let (t1, r1) = channel(&mut ids);
    let (t2, r2) = channel(&mut ids);
    let group = Poll::new();
    group.append(&[&r0, &r1, &r2]);
    t2.send(0).unwrap();
    t0.send(0).unwrap();
    t1.send(0).unwrap();
    assert_eq!(group.poll(short()), 2);
    assert_eq!(group.poll(short()), 0);
    assert_eq!(group.poll(short()), 1);
    assert_eq!(group.poll(short()), TIMEOUT);
}

#[test]
fn failed_wait_reports_timeout() {
    assert_eq!(ready_or_timeout(Err(RecvTimeoutError::Timeout)), TIMEOUT);
    assert_eq!(ready_or_timeout(Err(RecvTimeoutError::Disconnected)), -1);
}

#[test]
fn fresh_pool_can_allocate() {
    let mut ids = IdPool::new();
    assert!(ids.has_next());
    let first = ids.allocate();
    assert_eq!(first.value(), 0);
    assert_eq!(ids.allocate().value(), 1);
}
