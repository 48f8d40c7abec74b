//! Trusted declarations of the standard library's synchronization
//! primitives that the channel is built on.  Verus verifies nothing about a
//! mutex, a condition variable or an atomic counter; each item here states
//! only what the standard library documents, and everything built on top of
//! them is verified against these contracts.

use vstd::prelude::*;

use std::collections::VecDeque;
use std::sync::atomic::{AtomicUsize, Ordering};
use std::sync::{Arc, Condvar, Mutex, MutexGuard};

use crate::channel::ChannelClosed;

verus! {

#[verifier::external_type_specification]
#[verifier::external_body]
#[verifier::reject_recursive_types(T)]
pub struct ExMutex<T: ?Sized>(Mutex<T>);

#[verifier::external_type_specification]
#[verifier::external_body]
pub struct ExCondvar(Condvar);

#[verifier::external_type_specification]
#[verifier::external_body]
#[verifier::reject_recursive_types(T)]
pub struct ExMutexGuard<'a, T: ?Sized + 'a>(MutexGuard<'a, T>);

pub assume_specification<T>[ Mutex::<T>::new ](t: T) -> Mutex<T>;

pub assume_specification[ Condvar::new ]() -> Condvar;

/// Relies on `Mutex::lock`: blocks until the lock is held and returns the
/// guard; the only error is a poisoned lock, reported as `LockPoisoned`.
#[verifier::external_body]
pub(crate) fn lock_queue<'a, T>(m: &'a Mutex<VecDeque<T>>) -> (r: Result<
    MutexGuard<'a, VecDeque<T>>,
    ChannelClosed,
>)
    ensures
        r matches Err(e) ==> e == ChannelClosed::LockPoisoned,
{
    m.lock().map_err(|_| ChannelClosed::LockPoisoned)
}

/// Relies on `MutexGuard`'s `DerefMut`: the returned reference is the queue
/// the guard protects.  What the queue holds when the lock is taken depends
/// on every other handle of the channel, so nothing is stated about it.
#[verifier::external_body]
pub(crate) fn guarded_queue<'a, 'b, T>(g: &'b mut MutexGuard<'a, VecDeque<T>>) -> (q: &'b mut VecDeque<
    T,
>) {
    &mut **g
}

/// Relies on `Condvar::wait_while`: releases the lock and blocks for as
/// long as the verified predicate `must_wait` holds of the guarded queue,
/// re-evaluating it under the lock after every wakeup, so a spurious
/// wakeup never ends the wait early.  On return the lock is held again and
/// the predicate was false when last evaluated.  The only error is a
/// poisoned lock, reported as `LockPoisoned`.
#[verifier::external_body]
pub(crate) fn wait_available<'a, T>(
    cv: &Condvar,
    senders: &AtomicUsize,
    g: MutexGuard<'a, VecDeque<T>>,
) -> (r: Result<MutexGuard<'a, VecDeque<T>>, ChannelClosed>)
    ensures
        r matches Err(e) ==> e == ChannelClosed::LockPoisoned,
{
    cv.wait_while(g, |q| crate::channel::must_wait(q, senders.load(Ordering::SeqCst)))
        .map_err(|_| ChannelClosed::LockPoisoned)
}

/// Relies on `Condvar::notify_one`: wakes one waiting thread; never panics.
#[verifier::external_body]
pub(crate) fn notify_one(cv: &Condvar)
    opens_invariants none
    no_unwind
{
    cv.notify_one();
}

/// Relies on `AtomicUsize::fetch_add`: atomically adds one and returns the
/// previous value, which depends on every other live handle; never panics.
#[verifier::external_body]
pub(crate) fn counter_increment(c: &AtomicUsize) -> (prev: usize)
    opens_invariants none
    no_unwind
{
    c.fetch_add(1, Ordering::AcqRel)
}

/// Relies on `AtomicUsize::fetch_sub`: atomically subtracts one and returns
/// the previous value, which depends on every other live handle; never
/// panics.
#[verifier::external_body]
pub(crate) fn counter_decrement(c: &AtomicUsize) -> (prev: usize)
    opens_invariants none
    no_unwind
{
    c.fetch_sub(1, Ordering::AcqRel)
}

/// Relies on `AtomicUsize::load` with sequentially consistent ordering: a
/// snapshot of the counter, racing with other handles; never panics.
#[verifier::external_body]
pub(crate) fn counter_load(c: &AtomicUsize) -> (n: usize)
    opens_invariants none
    no_unwind
{
    c.load(Ordering::SeqCst)
}

/// Relies on `Arc::clone`: the clone refers to the very same allocation,
/// so as a value it equals the Arc it was cloned from.
#[verifier::external_body]
pub(crate) fn arc_clone<T>(a: &Arc<T>) -> (r: Arc<T>)
    ensures
        r == *a,
{
    Arc::clone(a)
}

} // verus!
