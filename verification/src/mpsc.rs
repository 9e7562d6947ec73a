//! The channel's handles: any number of `Sender`s feed the shared queue, one
//! `Receiver` drains it, batching bursts into a private buffer.

use vstd::prelude::*;
use std::sync::Arc;
use std::collections::VecDeque;
use crate::state::ChannelCtx;
use crate::sync::{Shared, new_mutex, new_condvar, lock_ctx, ctx_of, unlock_ctx, notify_waiter,
    wait_recv};

verus! {

/// A producer handle.  Duplicating it (`clone`) registers one more live
/// producer; disposing of it deregisters one, and the last one out wakes the
/// consumer so it can observe closure.
#[verifier::reject_recursive_types(T)]
pub struct Sender<T> {
    shared: Arc<Shared<T>>,
}

/// The consumer handle: the shared state plus a private buffer of values
/// already moved out of the shared queue, consumed front first.
#[verifier::reject_recursive_types(T)]
pub struct Receiver<T> {
    shared: Arc<Shared<T>>,
    buff: VecDeque<T>,
}

impl<T> Sender<T> {
    /// The shared channel state this handle feeds.
    pub closed spec fn endpoint(&self) -> Arc<Shared<T>> {
        self.shared
    }

    /// Append `value` at the tail of the shared queue and wake a blocked
    /// consumer.  Never blocks and never fails: the queue is unbounded, and
    /// a missing consumer just means nobody will read the value.
    pub fn send(&mut self, value: T)
        ensures
            final(self).endpoint() == old(self).endpoint(),
    {
        let mut g = lock_ctx(&self.shared);
        ctx_of(&mut g).enqueue(value);
        unlock_ctx(g);
        notify_waiter(&self.shared);
    }
}

impl<T> Clone for Sender<T> {
    /// Duplicate the handle: register one more live producer on the same
    /// channel.
    fn clone(&self) -> (r: Self)
        ensures
            r.endpoint() == self.endpoint(),
    {
        let mut g = lock_ctx(&self.shared);
        ctx_of(&mut g).register_producer();
        unlock_ctx(g);
        Sender { shared: self.shared.clone() }
    }
}

impl<T> Drop for Sender<T> {
    /// Deregister this producer; the last one out wakes the consumer so it
    /// observes closure instead of blocking forever.
    fn drop(&mut self)
        opens_invariants none
        no_unwind
    {
        let mut g = lock_ctx(&self.shared);
        let last = ctx_of(&mut g).deregister_producer();
        unlock_ctx(g);
        if last {
            notify_waiter(&self.shared);
        }
    }
}

impl<T> Receiver<T> {
    /// The shared channel state this handle drains.
    pub closed spec fn endpoint(&self) -> Arc<Shared<T>> {
        self.shared
    }

    /// The values already moved out of the shared queue, next one first.
    pub closed spec fn buffered(&self) -> Seq<T> {
        self.buff@
    }

    /// Blocking dequeue.  The front of the private buffer is returned
    /// without touching the lock; only with an empty buffer is the lock
    /// taken, and then the call blocks until a value arrives or the channel
    /// closes.  `None` is the terminal end-of-stream signal: it comes only
    /// once the channel is closed and both queue and buffer are exhausted,
    /// and every later call returns it again.
    pub fn recv(&mut self) -> (r: Option<T>)
        ensures
            final(self).endpoint() == old(self).endpoint(),
            old(self).buffered().len() > 0 ==> {
                &&& r == Some(old(self).buffered()[0])
                &&& final(self).buffered() == old(self).buffered().skip(1)
            },
            r is None ==> {
                &&& old(self).buffered().len() == 0
                &&& final(self).buffered().len() == 0
            },
    {
        match self.buff.pop_front() {
            Some(value) => {
                return Some(value);
            },
            None => {},
        }
        let mut out: Option<T> = None;
        let g = lock_ctx(&self.shared);
        let g = wait_recv(&self.shared, g, &mut self.buff, &mut out);
        unlock_ctx(g);
        out
    }
}

/// Create a channel: a fresh shared state with an empty queue and one
/// registered producer, and one linked pair of handles on it.
pub fn channel<T>() -> (pair: (Sender<T>, Receiver<T>))
    ensures
        pair.0.endpoint() == pair.1.endpoint(),
        pair.1.buffered() == Seq::<T>::empty(),
{
    let shared = Arc::new(Shared { mu: new_mutex(ChannelCtx::new()), cv: new_condvar() });
    let s = Sender { shared: shared.clone() };
    let r = Receiver { shared, buff: VecDeque::new() };
    (s, r)
}

} // verus!
