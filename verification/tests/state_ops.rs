use mpsc_channel::state::{ChannelCtx, DrainStep};
use std::collections::VecDeque;

#[test]
fn fresh_state_counts_one_producer() {
    let ctx = ChannelCtx::<u32>::new();
    assert_eq!(ctx.producer_count(), 1);
    assert_eq!(ctx.pending_len(), 0);
}

#[test]
fn enqueue_grows_the_queue() {
    let mut ctx = ChannelCtx::new();
    ctx.enqueue(21);
    ctx.enqueue(22);
    assert_eq!(ctx.pending_len(), 2);
    assert_eq!(ctx.producer_count(), 1);
}

#[test]
fn drain_delivers_front_and_batches_rest() {
    let mut ctx = ChannelCtx::new();
    ctx.enqueue(21);
    ctx.enqueue(22);
    ctx.enqueue(27);
    let mut buff = VecDeque::new();
    match ctx.drain(&mut buff) {
        DrainStep::Delivered(v) => assert_eq!(v, 21),
        _ => panic!("expected a delivery"),
    }
    // The rest of the queue moved into the buffer in the same step.
    assert_eq!(ctx.pending_len(), 0);
    assert_eq!(buff, VecDeque::from([22, 27]));
}

#[test]
fn drain_reports_finished_only_when_closed() {
    let mut ctx = ChannelCtx::<u32>::new();
    let mut buff = VecDeque::new();
    assert!(matches!(ctx.drain(&mut buff), DrainStep::MustWait));
    let last = ctx.deregister_producer();
    assert!(last);
    assert!(matches!(ctx.drain(&mut buff), DrainStep::Finished));
    assert!(matches!(ctx.drain(&mut buff), DrainStep::Finished));
}

#[test]
fn register_and_deregister_track_producers() {
    let mut ctx = ChannelCtx::<u32>::new();
    ctx.register_producer();
    ctx.register_producer();
    assert_eq!(ctx.producer_count(), 3);
    assert!(!ctx.deregister_producer());
    assert!(!ctx.deregister_producer());
    assert_eq!(ctx.producer_count(), 1);
    assert!(ctx.deregister_producer());
    assert_eq!(ctx.producer_count(), 0);
}

#[test]
fn poll_recv_waits_delivers_and_finishes() {
    let mut ctx = ChannelCtx::new();
    let mut buff = VecDeque::new();
    let mut out = None;
    // Empty queue on an open channel: keep waiting, nothing touched.
    assert!(ctx.poll_recv(&mut buff, &mut out));
    assert_eq!(out, None);
    assert!(buff.is_empty());
    // With data queued the wait is over: front delivered, rest batched.
    ctx.enqueue(21);
    ctx.enqueue(22);
    assert!(!ctx.poll_recv(&mut buff, &mut out));
    assert_eq!(out, Some(21));
    assert_eq!(buff, VecDeque::from([22]));
    // Closed and drained: the wait ends with the terminal signal.
    let mut buff2 = VecDeque::new();
    let mut out2 = None;
    assert!(ctx.deregister_producer());
    assert!(!ctx.poll_recv(&mut buff2, &mut out2));
    assert_eq!(out2, None);
    assert!(buff2.is_empty());
}

#[test]
fn closed_state_still_delivers_queued_values() {
    let mut ctx = ChannelCtx::new();
    ctx.enqueue(21);
    let last = ctx.deregister_producer();
    assert!(last);
    let mut buff = VecDeque::new();
    match ctx.drain(&mut buff) {
        DrainStep::Delivered(v) => assert_eq!(v, 21),
        _ => panic!("expected a delivery"),
    }
    assert!(matches!(ctx.drain(&mut buff), DrainStep::Finished));
}
