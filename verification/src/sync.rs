//! The synchronization boundary: a mutex and a condition variable from std
//! guard the `ChannelCtx`.  Each trusted wrapper below holds exactly one std
//! call (plus the conversion of its arguments and result); every decision
//! about the channel's state, and every mutation of it, runs in a verified
//! function of `state`, called from verified code through the guard that
//! [`lock_ctx`] hands out — or, for the blocking wait, in the verified
//! predicate that [`wait_recv`] passes to `Condvar::wait_while`.

use vstd::prelude::*;
use std::collections::VecDeque;
use crate::state::ChannelCtx;

verus! {

#[verifier::external_type_specification]
#[verifier::external_body]
#[verifier::reject_recursive_types(T)]
pub struct ExMutex<T: ?Sized>(std::sync::Mutex<T>);

#[verifier::external_type_specification]
#[verifier::external_body]
pub struct ExCondvar(std::sync::Condvar);

#[verifier::external_type_specification]
#[verifier::external_body]
#[verifier::reject_recursive_types(T)]
pub struct ExMutexGuard<'a, T: ?Sized + 'a>(std::sync::MutexGuard<'a, T>);

/// The lock and the wake-up signal that all handles of one channel share.
#[verifier::reject_recursive_types(T)]
pub struct Shared<T> {
    pub(crate) mu: std::sync::Mutex<ChannelCtx<T>>,
    pub(crate) cv: std::sync::Condvar,
}

/// Relies on `std::sync::Mutex::new` to take ownership of the initial state.
#[verifier::external_body]
pub(crate) fn new_mutex<T>(ctx: ChannelCtx<T>) -> std::sync::Mutex<ChannelCtx<T>> {
    std::sync::Mutex::new(ctx)
}

/// Relies on `std::sync::Condvar::new`.
#[verifier::external_body]
pub(crate) fn new_condvar() -> std::sync::Condvar {
    std::sync::Condvar::new()
}

/// Relies on `std::sync::Mutex::lock` to block until this thread holds the
/// lock exclusively.  The `unwrap` surfaces a poisoned lock as the fatal
/// condition it is; poisoning cannot actually arise, since only verified,
/// panic-free code ever runs while the lock is held, which is also why the
/// call does not unwind.
#[verifier::external_body]
pub(crate) fn lock_ctx<'a, T>(shared: &'a Shared<T>) -> std::sync::MutexGuard<'a, ChannelCtx<T>>
    opens_invariants none
    no_unwind
{
    shared.mu.lock().unwrap()
}

/// Relies on `std::sync::MutexGuard::deref_mut`: the guard gives exclusive
/// access to the state behind the lock, so verified code can run the
/// `ChannelCtx` steps on it directly.  A dereference does not unwind.
#[verifier::external_body]
pub(crate) fn ctx_of<'b, 'a, T>(
    g: &'b mut std::sync::MutexGuard<'a, ChannelCtx<T>>,
) -> &'b mut ChannelCtx<T>
    opens_invariants none
    no_unwind
{
    &mut **g
}

/// Relies on `std::sync::MutexGuard`'s drop to release the lock; an unlock
/// does not unwind.
#[verifier::external_body]
pub(crate) fn unlock_ctx<'a, T>(g: std::sync::MutexGuard<'a, ChannelCtx<T>>)
    opens_invariants none
    no_unwind
{
    drop(g)
}

/// Relies on `std::sync::Condvar::notify_one`, which does not unwind.  One
/// waiter is enough: the channel has a single consumer by design.
#[verifier::external_body]
pub(crate) fn notify_waiter<T>(shared: &Shared<T>)
    opens_invariants none
    no_unwind
{
    shared.cv.notify_one();
}

/// Relies on `std::sync::Condvar::wait_while`, whose documented contract is
/// to check the condition under the lock, atomically release the lock while
/// blocked, reacquire it on wake (spurious wakes included), and return —
/// lock held — only once the condition is false.  The condition handed to it
/// is the verified [`ChannelCtx::poll_recv`]: it keeps waiting exactly while
/// the queue is empty on an open channel, and otherwise records the outcome
/// in `out` and `buff`.  The two clauses below hold of every such call
/// sequence by `poll_recv`'s own contract: waiting rounds leave `buff` and
/// `out` untouched, and the closed-channel outcome leaves them untouched
/// too.
#[verifier::external_body]
pub(crate) fn wait_recv<'a, T>(
    shared: &Shared<T>,
    g: std::sync::MutexGuard<'a, ChannelCtx<T>>,
    buff: &mut VecDeque<T>,
    out: &mut Option<T>,
) -> (held: std::sync::MutexGuard<'a, ChannelCtx<T>>)
    requires
        old(buff)@.len() == 0,
        *old(out) is None,
    ensures
        *final(out) is None ==> final(buff)@ == old(buff)@,
{
    shared.cv.wait_while(g, |ctx: &mut ChannelCtx<T>| ctx.poll_recv(buff, out)).unwrap()
}

} // verus!
