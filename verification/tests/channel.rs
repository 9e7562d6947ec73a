use mpsc_channel::channel;

#[test]
fn init() {
    let (_r, _c) = channel::<()>();
}

#[test]
fn send() {
    let (mut s, _r) = channel();
    s.send(21);
}

#[test]
fn recv() {
    let (mut s, mut r) = channel();
    s.send(21);
    assert_eq!(r.recv(), Some(21));
}

#[test]
fn multiple_send() {
    let (mut s, mut r) = channel();
    s.send(21);
    s.send(22);
    let mut sc = s.clone();
    sc.send(27);
    assert_eq!(r.recv(), Some(21));
    assert_eq!(r.recv(), Some(22));
    assert_eq!(r.recv(), Some(27));
}

#[test]
fn close_sending() {
    let (mut s, mut r) = channel();
    s.send(21);
    drop(s);
    assert_eq!(r.recv(), Some(21));
    assert_eq!(r.recv(), None);
}

#[test]
fn close_receiving() {
    let (mut s, r) = channel();
    drop(r);
    s.send(21);
}

#[test]
fn terminal_signal_repeats() {
    let (mut s, mut r) = channel();
    s.send(1);
    s.send(2);
    drop(s);
    assert_eq!(r.recv(), Some(1));
    assert_eq!(r.recv(), Some(2));
    assert_eq!(r.recv(), None);
    assert_eq!(r.recv(), None);
    assert_eq!(r.recv(), None);
}

#[test]
fn batching_keeps_delivery_order() {
    let (mut s, mut r) = channel();
    s.send(1);
    s.send(2);
    s.send(3);
    // The first recv pops 1 and moves 2 and 3 into the private buffer in the
    // same locked step; values sent afterwards must still come out last.
    assert_eq!(r.recv(), Some(1));
    s.send(4);
    assert_eq!(r.recv(), Some(2));
    assert_eq!(r.recv(), Some(3));
    assert_eq!(r.recv(), Some(4));
}

#[test]
fn clone_keeps_channel_open() {
    let (s, mut r) = channel::<u32>();
    let mut sc = s.clone();
    drop(s);
    // One live producer remains, so the stream is still open.
    sc.send(7);
    assert_eq!(r.recv(), Some(7));
    drop(sc);
    assert_eq!(r.recv(), None);
}

#[test]
fn send_after_receiver_gone_is_absorbed() {
    let (mut s, r) = channel();
    drop(r);
    s.send(1);
    s.send(2);
    let mut sc = s.clone();
    sc.send(3);
    drop(s);
    sc.send(4);
}

#[test]
fn per_producer_order_is_kept() {
    let (mut a, mut r) = channel();
    let mut b = a.clone();
    a.send(10);
    b.send(20);
    a.send(11);
    b.send(21);
    a.send(12);
    drop(a);
    drop(b);
    let mut got = Vec::new();
    while let Some(v) = r.recv() {
        got.push(v);
    }
    // Delivery follows the order the sends took the lock...
    assert_eq!(got, vec![10, 20, 11, 21, 12]);
    // ...so each producer's own values keep their send order.
    let from_a: Vec<i32> = got.iter().copied().filter(|v| *v < 20).collect();
    let from_b: Vec<i32> = got.iter().copied().filter(|v| *v >= 20).collect();
    assert_eq!(from_a, vec![10, 11, 12]);
    assert_eq!(from_b, vec![20, 21]);
}

#[test]
fn every_sent_value_is_delivered_exactly_once() {
    let (mut s, mut r) = channel();
    let mut s2 = s.clone();
    s.send(3);
    s2.send(1);
    s.send(2);
    s2.send(1);
    drop(s);
    drop(s2);
    let mut got = Vec::new();
    while let Some(v) = r.recv() {
        got.push(v);
    }
    got.sort();
    assert_eq!(got, vec![1, 1, 2, 3]);
}

#[test]
fn string_messages_arrive_intact() {
    let (mut s, mut r) = channel();
    s.send(format!("first"));
    s.send(format!("second"));
    drop(s);
    assert_eq!(r.recv(), Some(format!("first")));
    assert_eq!(r.recv(), Some(format!("second")));
    assert_eq!(r.recv(), None);
}
