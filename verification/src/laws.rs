//! The channel's behaviour as a transition system, and the laws proved of
//! it.
//!
//! A [`ChannelModel`] observes one channel as a whole: everything sent (in
//! the order the sends took the lock), the shared queue, the consumer's
//! private buffer, everything delivered, and the live-producer count.  Each
//! arm of [`op_step`] restates the `ensures` of the corresponding verified
//! operation — `enqueue` for `Send`, `register_producer` for `Duplicate`,
//! `deregister_producer` for `Release`, and the two paths of `recv` (the
//! buffer fast path and the `drain` batch step) for `Recv` — over the spec
//! views those contracts use.  One difference is deliberate: the model
//! counts producers as an unbounded integer, while the code saturates the
//! count at the machine word's limit instead of overflowing.
//!
//! A `Recv` step only exists where the call completes: with nothing to
//! deliver on an open channel the call blocks and no step happens, which is
//! what [`op_enabled`] says.

use vstd::prelude::*;
use vstd::seq_lib::lemma_multiset_commutative;

verus! {

/// One channel observed as a whole.
pub struct ChannelModel<T> {
    /// Every value handed to `send`, in the order the sends took the lock.
    pub sent: Seq<T>,
    /// Values still in the shared queue, oldest first.
    pub pending: Seq<T>,
    /// Values already moved into the consumer's buffer, next to deliver first.
    pub buffered: Seq<T>,
    /// Values `recv` has returned, in delivery order.
    pub delivered: Seq<T>,
    /// Live producer handles.
    pub producers: int,
}

/// The operations the handles offer.
pub enum ChannelOp<T> {
    /// A producer enqueues a value.
    Send(T),
    /// A producer handle is duplicated.
    Duplicate,
    /// A producer handle is released.
    Release,
    /// A `recv` call completes.
    Recv,
}

/// The state a fresh channel starts in: nothing anywhere, one producer.
pub open spec fn init_model<T>() -> ChannelModel<T> {
    ChannelModel {
        sent: Seq::empty(),
        pending: Seq::empty(),
        buffered: Seq::empty(),
        delivered: Seq::empty(),
        producers: 1,
    }
}

/// When an operation can take place.  The producer operations need a live
/// handle; a `Recv` completes only when it has something to deliver or the
/// channel is closed — otherwise the call blocks and no step happens.
pub open spec fn op_enabled<T>(m: ChannelModel<T>, op: ChannelOp<T>) -> bool {
    match op {
        ChannelOp::Send(_) => m.producers > 0,
        ChannelOp::Duplicate => m.producers > 0,
        ChannelOp::Release => m.producers > 0,
        ChannelOp::Recv => m.buffered.len() > 0 || m.pending.len() > 0 || m.producers == 0,
    }
}

/// What a completing `recv` returns in state `m`.
pub open spec fn recv_result<T>(m: ChannelModel<T>) -> Option<T> {
    if m.buffered.len() > 0 {
        Some(m.buffered[0])
    } else if m.pending.len() > 0 {
        Some(m.pending[0])
    } else {
        None
    }
}

/// The state after one operation.
pub open spec fn op_step<T>(m: ChannelModel<T>, op: ChannelOp<T>) -> ChannelModel<T> {
    match op {
        ChannelOp::Send(v) => ChannelModel {
            sent: m.sent.push(v),
            pending: m.pending.push(v),
            ..m
        },
        ChannelOp::Duplicate => ChannelModel { producers: m.producers + 1, ..m },
        ChannelOp::Release => ChannelModel { producers: m.producers - 1, ..m },
        ChannelOp::Recv => if m.buffered.len() > 0 {
            ChannelModel {
                buffered: m.buffered.skip(1),
                delivered: m.delivered.push(m.buffered[0]),
                ..m
            }
        } else if m.pending.len() > 0 {
            ChannelModel {
                pending: Seq::empty(),
                buffered: m.pending.skip(1),
                delivered: m.delivered.push(m.pending[0]),
                ..m
            }
        } else {
            m
        },
    }
}

/// The state after a sequence of operations, applied left to right.
pub open spec fn apply_ops<T>(m: ChannelModel<T>, ops: Seq<ChannelOp<T>>) -> ChannelModel<T>
    decreases ops.len(),
{
    if ops.len() == 0 {
        m
    } else {
        apply_ops(op_step(m, ops[0]), ops.skip(1))
    }
}

/// Every operation in `ops` is enabled when its turn comes.
pub open spec fn ops_enabled<T>(m: ChannelModel<T>, ops: Seq<ChannelOp<T>>) -> bool
    decreases ops.len(),
{
    ops.len() == 0 || (op_enabled(m, ops[0]) && ops_enabled(op_step(m, ops[0]), ops.skip(1)))
}

/// Nothing is lost, duplicated or reordered: what was sent is exactly what
/// was delivered, then what the consumer's buffer holds, then what is still
/// queued.
pub open spec fn conserved<T>(m: ChannelModel<T>) -> bool {
    m.sent == m.delivered + m.buffered + m.pending
}

/// The channel is closed and drained everywhere: nothing will ever come out
/// again.
pub open spec fn terminal<T>(m: ChannelModel<T>) -> bool {
    m.producers == 0 && m.pending.len() == 0 && m.buffered.len() == 0
}

/// A fresh channel is conserved.
pub proof fn lemma_init_conserved<T>()
    ensures
        conserved(init_model::<T>()),
{
    let m = init_model::<T>();
    assert(m.sent =~= m.delivered + m.buffered + m.pending);
}

/// LAW: every enabled operation keeps the channel conserved — values move
/// from the queue to the buffer to the consumer without loss, duplication or
/// reordering.
pub proof fn lemma_step_conserved<T>(m: ChannelModel<T>, op: ChannelOp<T>)
    requires
        conserved(m),
        op_enabled(m, op),
    ensures
        conserved(op_step(m, op)),
{
    let m2 = op_step(m, op);
    assert(m2.sent =~= m2.delivered + m2.buffered + m2.pending);
}

/// LAW: conservation holds after any enabled run of operations.
pub proof fn lemma_run_conserved<T>(m: ChannelModel<T>, ops: Seq<ChannelOp<T>>)
    requires
        conserved(m),
        ops_enabled(m, ops),
    ensures
        conserved(apply_ops(m, ops)),
    decreases ops.len(),
{
    if ops.len() > 0 {
        lemma_step_conserved(m, ops[0]);
        lemma_run_conserved(op_step(m, ops[0]), ops.skip(1));
    }
}

/// LAW (delivery is FIFO): in a conserved state the delivered values are
/// exactly the first `delivered.len()` sent values, in the order the sends
/// took the lock; for the sends of a single producer handle that order is
/// the order of its calls, so its values come out exactly as they went in.
pub proof fn lemma_fifo<T>(m: ChannelModel<T>)
    requires
        conserved(m),
    ensures
        m.delivered == m.sent.take(m.delivered.len() as int),
{
    assert(m.delivered =~= m.sent.take(m.delivered.len() as int));
}

/// LAW (FIFO per producer): delivery preserves every selection of the send
/// order, not just the order as a whole.  Restricted to any set of values —
/// in particular the values one producer handle sent — the delivered
/// sequence is a prefix of the sent sequence, so each producer's values
/// come out exactly in the order that producer sent them, whatever the
/// other producers interleaved.
pub proof fn lemma_fifo_selection<T>(m: ChannelModel<T>, sel: spec_fn(T) -> bool)
    requires
        conserved(m),
    ensures
        m.delivered.filter(sel).is_prefix_of(m.sent.filter(sel)),
{
    lemma_fifo(m);
    assert(m.delivered.is_prefix_of(m.sent));
    m.delivered.lemma_filter_monotone(m.sent, sel);
}

/// LAW (multiset preservation): in a conserved state the multiset of sent
/// values equals the delivered, buffered and pending multisets put together,
/// whatever the interleaving of producers was.
pub proof fn lemma_multiset_preserved<T>(m: ChannelModel<T>)
    requires
        conserved(m),
    ensures
        m.sent.to_multiset() == m.delivered.to_multiset().add(m.buffered.to_multiset()).add(
            m.pending.to_multiset(),
        ),
{
    lemma_multiset_commutative(m.delivered + m.buffered, m.pending);
    lemma_multiset_commutative(m.delivered, m.buffered);
}

/// LAW (multiset preservation, drained): once the queue and the buffer are
/// empty, the multiset of delivered values is exactly the multiset of sent
/// values.
pub proof fn lemma_multiset_drained<T>(m: ChannelModel<T>)
    requires
        conserved(m),
        m.pending.len() == 0,
        m.buffered.len() == 0,
    ensures
        m.delivered.to_multiset() == m.sent.to_multiset(),
{
    assert(m.sent =~= m.delivered);
}

/// LAW (closure terminality, one call): in a terminal state `recv` always
/// completes, returns the terminal "no more data" signal, and changes
/// nothing.
pub proof fn lemma_terminal_recv<T>(m: ChannelModel<T>)
    requires
        terminal(m),
    ensures
        op_enabled(m, ChannelOp::<T>::Recv),
        recv_result(m) is None,
        op_step(m, ChannelOp::<T>::Recv) == m,
{
}

/// LAW (post-closure stability): once the channel is closed, no enabled run
/// of operations ever reopens it.  With no producer handle left, the only
/// operations that can still happen are `recv` calls, and none of them
/// touches the producer count.
pub proof fn lemma_closed_forever<T>(m: ChannelModel<T>, ops: Seq<ChannelOp<T>>)
    requires
        m.producers == 0,
        ops_enabled(m, ops),
    ensures
        apply_ops(m, ops).producers == 0,
    decreases ops.len(),
{
    if ops.len() > 0 {
        lemma_closed_forever(op_step(m, ops[0]), ops.skip(1));
    }
}

/// LAW (closure terminality): a terminal state is forever — after any
/// enabled run of operations the channel is still that same terminal state,
/// so every subsequent `recv` keeps returning the terminal signal.
pub proof fn lemma_terminal_forever<T>(m: ChannelModel<T>, ops: Seq<ChannelOp<T>>)
    requires
        terminal(m),
        ops_enabled(m, ops),
    ensures
        apply_ops(m, ops) == m,
        recv_result(apply_ops(m, ops)) is None,
    decreases ops.len(),
{
    if ops.len() > 0 {
        lemma_terminal_forever(m, ops.skip(1));
    }
}

} // verus!
