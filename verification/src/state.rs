//! The state guarded by the channel's lock, and the consumer's one-step
//! decision on it.  Everything here is sequential code on exclusively owned
//! values: the synchronization that hands a `ChannelCtx` to exactly one
//! thread at a time lives in `sync`.

use vstd::prelude::*;
use std::collections::VecDeque;

verus! {

/// What the consumer decided during one exclusive access to the shared state.
pub enum DrainStep<T> {
    /// The queue held at least one value; the front one is delivered and the
    /// rest of the queue was moved into the consumer's private buffer.
    Delivered(T),
    /// The queue is empty and no producer is left: the stream has ended.
    Finished,
    /// The queue is empty but producers remain, so more data may yet come:
    /// the consumer must block and retry.
    MustWait,
}

/// The shared channel state: the pending FIFO queue and the count of live
/// producer handles.  Mutated only under the channel's lock.
pub struct ChannelCtx<T> {
    queue: VecDeque<T>,
    n_senders: u32,
}

impl<T> ChannelCtx<T> {
    /// The queued values, oldest first.
    pub closed spec fn pending(&self) -> Seq<T> {
        self.queue@
    }

    /// How many producer handles are registered as live.
    pub closed spec fn producers(&self) -> int {
        self.n_senders as int
    }

    /// The channel is closed once no producer handle remains.
    pub open spec fn is_closed(&self) -> bool {
        self.producers() == 0
    }

    /// A fresh channel state: nothing queued, one producer registered.
    pub fn new() -> (r: Self)
        ensures
            r.pending() == Seq::<T>::empty(),
            r.producers() == 1,
    {
        ChannelCtx { queue: VecDeque::new(), n_senders: 1 }
    }

    /// Number of queued values.
    pub fn pending_len(&self) -> (n: usize)
        ensures
            n == self.pending().len(),
    {
        self.queue.len()
    }

    /// Number of registered producers.
    pub fn producer_count(&self) -> (n: u32)
        ensures
            n == self.producers(),
    {
        self.n_senders
    }

    /// Append a value at the tail of the queue.
    pub fn enqueue(&mut self, value: T)
        ensures
            final(self).pending() == old(self).pending().push(value),
            final(self).producers() == old(self).producers(),
    {
        self.queue.push_back(value);
    }

    /// Register one more live producer.  The count saturates at `u32::MAX`
    /// rather than overflow; no real process holds that many handles.
    pub fn register_producer(&mut self)
        ensures
            final(self).pending() == old(self).pending(),
            final(self).producers() == if old(self).producers() < u32::MAX {
                old(self).producers() + 1
            } else {
                old(self).producers()
            },
    {
        if self.n_senders < u32::MAX {
            self.n_senders = self.n_senders + 1;
        }
    }

    /// Deregister one live producer and report whether it was the last.
    /// A release is matched to an earlier registration, so the count never
    /// actually reaches this function at zero; the guard keeps the function
    /// total instead of panicking.
    pub fn deregister_producer(&mut self) -> (last: bool)
        ensures
            final(self).pending() == old(self).pending(),
            final(self).producers() == if old(self).producers() > 0 {
                old(self).producers() - 1
            } else {
                0
            },
            last == final(self).is_closed(),
        opens_invariants none
        no_unwind
    {
        if self.n_senders > 0 {
            self.n_senders = self.n_senders - 1;
        }
        self.n_senders == 0
    }

    /// The consumer's decision for one exclusive access: deliver the front of
    /// the queue and move the remainder into the consumer's private buffer in
    /// the same step, or report the stream finished, or report that the
    /// consumer must wait for producers.
    pub fn drain(&mut self, buff: &mut VecDeque<T>) -> (step: DrainStep<T>)
        requires
            old(buff)@.len() == 0,
        ensures
            final(self).producers() == old(self).producers(),
            match step {
                DrainStep::Delivered(v) => {
                    &&& old(self).pending().len() > 0
                    &&& v == old(self).pending()[0]
                    &&& final(buff)@ == old(self).pending().skip(1)
                    &&& final(self).pending() == Seq::<T>::empty()
                },
                DrainStep::Finished => {
                    &&& old(self).pending().len() == 0
                    &&& old(self).is_closed()
                    &&& final(self).pending() == old(self).pending()
                    &&& final(buff)@ == old(buff)@
                },
                DrainStep::MustWait => {
                    &&& old(self).pending().len() == 0
                    &&& !old(self).is_closed()
                    &&& final(self).pending() == old(self).pending()
                    &&& final(buff)@ == old(buff)@
                },
            },
    {
        match self.queue.pop_front() {
            Some(value) => {
                core::mem::swap(&mut self.queue, buff);
                DrainStep::Delivered(value)
            },
            None => {
                if self.n_senders == 0 {
                    DrainStep::Finished
                } else {
                    DrainStep::MustWait
                }
            },
        }
    }

    /// The consumer's wait predicate, in the shape a condition variable's
    /// wait takes: `true` means the consumer must keep waiting (empty queue,
    /// open channel); `false` means the wait is over, with the outcome of
    /// the [`Self::drain`] step it ran recorded in `out` — the delivered
    /// front value, or `None` for the terminal end-of-stream signal.
    pub fn poll_recv(&mut self, buff: &mut VecDeque<T>, out: &mut Option<T>) -> (waiting: bool)
        requires
            old(buff)@.len() == 0,
            *old(out) is None,
        ensures
            final(self).producers() == old(self).producers(),
            waiting ==> {
                &&& old(self).pending().len() == 0
                &&& !old(self).is_closed()
                &&& final(self).pending() == old(self).pending()
                &&& final(buff)@ == old(buff)@
                &&& *final(out) == *old(out)
            },
            !waiting ==> if old(self).pending().len() > 0 {
                &&& *final(out) == Some(old(self).pending()[0])
                &&& final(buff)@ == old(self).pending().skip(1)
                &&& final(self).pending() == Seq::<T>::empty()
            } else {
                &&& old(self).is_closed()
                &&& *final(out) is None
                &&& final(self).pending() == old(self).pending()
                &&& final(buff)@ == old(buff)@
            },
    {
        match self.drain(buff) {
            DrainStep::Delivered(value) => {
                *out = Some(value);
                false
            },
            DrainStep::Finished => false,
            DrainStep::MustWait => true,
        }
    }
}

} // verus!
