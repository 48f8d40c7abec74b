//! The channel itself: shared state, sender and receiver handles, and the
//! verified queue/cache operations they perform under the lock.
//!
//! All queue mutation happens while holding the one mutex of the channel;
//! the live-handle counters are plain atomics touched outside the mutex.
//! What a handle observes under the lock or in a counter snapshot depends
//! on every other thread, so the contracts here pin down what each
//! operation does *given* what it observed; `crate::model` states and
//! proves the channel-wide laws over the same specification functions.

use vstd::prelude::*;

use std::collections::VecDeque;
use std::sync::atomic::AtomicUsize;
use std::sync::{Arc, Condvar, Mutex};

use crate::model::delivery_order;
use crate::sync::{
    arc_clone, counter_decrement, counter_increment, counter_load, guarded_queue, lock_queue,
    notify_one, wait_available,
};

verus! {

/// Why an operation on the channel failed.
#[derive(Clone, Copy, Debug, PartialEq, Eq, Structural)]
pub enum ChannelClosed {
    /// `send` found no live receiver.
    NoReceivers,
    /// `recv` found the queue and cache empty and no live sender.
    NoSenders,
    /// The mutex or condition variable was left poisoned by a thread that
    /// panicked while holding the lock.
    LockPoisoned,
}

/// Initial capacity of the shared queue and of the receiver cache.
const INITIAL_SIZE: usize = 32;

/// The state jointly owned by every handle: the mutex-guarded FIFO queue,
/// its paired condition variable, and the live-handle counters.
#[verifier::reject_recursive_types(T)]
struct Shared<T> {
    queue: Mutex<VecDeque<T>>,
    available: Condvar,
    senders: AtomicUsize,
    receivers: AtomicUsize,
}

impl<T> Shared<T> {
    /// Fresh shared state for one channel: empty queue, one sender and one
    /// receiver accounted for.
    fn new() -> Shared<T> {
        Shared {
            queue: Mutex::new(VecDeque::with_capacity(INITIAL_SIZE)),
            available: Condvar::new(),
            senders: AtomicUsize::new(1),
            receivers: AtomicUsize::new(1),
        }
    }
}

/// Producer-side handle; cloneable, many may coexist.
#[verifier::reject_recursive_types(T)]
pub struct Sender<T> {
    shared: Arc<Shared<T>>,
}

/// Consumer-side handle; exactly one per channel.  Besides the shared
/// state it owns a private cache of items already drained from the queue.
#[verifier::reject_recursive_types(T)]
pub struct Receiver<T> {
    shared: Arc<Shared<T>>,
    cache: VecDeque<T>,
}

/// Appends `value` to the queue and reports whether the queue was empty
/// before, which is exactly when a blocked consumer may need a wakeup.
pub fn enqueue<T>(queue: &mut VecDeque<T>, value: T) -> (was_empty: bool)
    ensures
        final(queue)@ == old(queue)@.push(value),
        was_empty <==> old(queue)@.len() == 0,
{
    let was_empty = queue.len() == 0;
    queue.push_back(value);
    was_empty
}

/// Pops the front of the queue; if more items remain they all move into
/// the (empty) cache in one structural swap, leaving the queue empty.  The
/// pending sequence `delivery_order(cache, queue)` loses exactly its front.
pub fn drain_front<T>(queue: &mut VecDeque<T>, cache: &mut VecDeque<T>) -> (r: Option<T>)
    requires
        old(cache)@.len() == 0,
    ensures
        old(queue)@.len() == 0 ==> {
            &&& r is None
            &&& final(queue)@ == old(queue)@
            &&& final(cache)@ == old(cache)@
        },
        old(queue)@.len() > 0 ==> {
            &&& r == Some(old(queue)@[0])
            &&& final(queue)@.len() == 0
            &&& final(cache)@ =~= old(queue)@.skip(1)
            &&& delivery_order(final(cache)@, final(queue)@) =~= delivery_order(
                old(cache)@,
                old(queue)@,
            ).skip(1)
        },
{
    match queue.pop_front() {
        Some(x) => {
            if queue.len() > 0 {
                core::mem::swap(cache, queue);
            }
            proof {
                assert(delivery_order(cache@, queue@) =~= delivery_order(
                    old(cache)@,
                    old(queue)@,
                ).skip(1));
            }
            Some(x)
        },
        None => None,
    }
}

/// The consumer's wait condition, re-evaluated under the lock after every
/// wakeup: keep waiting exactly while nothing is queued and the
/// sender-count snapshot says a producer is still alive.
pub fn must_wait<T>(queue: &VecDeque<T>, senders_snapshot: usize) -> (w: bool)
    ensures
        w <==> (queue@.len() == 0 && senders_snapshot != 0),
{
    queue.len() == 0 && senders_snapshot != 0
}

impl<T> Sender<T> {
    /// True when both handles belong to the same channel.
    pub closed spec fn sends_to(&self, receiver: &Receiver<T>) -> bool {
        self.shared == receiver.shared
    }

    /// True when both senders feed the same channel.
    pub closed spec fn same_channel(&self, other: &Sender<T>) -> bool {
        self.shared == other.shared
    }

    /// Enqueues `msg` unless the receiver-count snapshot is zero.  On
    /// success the value was appended to the shared queue under the lock,
    /// and the condition variable was signalled exactly when the queue was
    /// empty before.  Never blocks beyond the brief mutex hold.
    pub fn send(&mut self, msg: T) -> (r: Result<(), ChannelClosed>)
        ensures
            *final(self) == *old(self),
            r matches Err(e) ==> e == ChannelClosed::NoReceivers || e
                == ChannelClosed::LockPoisoned,
    {
        if self.total_receivers() == 0 {
            return Err(ChannelClosed::NoReceivers);
        }
        let was_empty = {
            let mut guard = match lock_queue(&self.shared.queue) {
                Ok(g) => g,
                Err(e) => { return Err(e); },
            };
            enqueue(guarded_queue(&mut guard), msg)
        };
        if was_empty {
            notify_one(&self.shared.available);
        }
        Ok(())
    }

    /// Snapshot of the live receiver count; racing with a concurrent
    /// receiver release.
    pub fn total_receivers(&self) -> usize {
        counter_load(&self.shared.receivers)
    }

    /// Length of the shared queue at the moment the lock was held; items
    /// already moved into the receiver's private cache are not counted.
    /// Reports zero on a poisoned lock.
    pub fn total_queued_items(&self) -> usize {
        match lock_queue(&self.shared.queue) {
            Ok(mut guard) => guarded_queue(&mut guard).len(),
            Err(_) => 0,
        }
    }
}

impl<T> Clone for Sender<T> {
    /// A new producer handle for the same channel; the live sender count
    /// was atomically incremented by one.
    fn clone(&self) -> (r: Self)
        ensures
            r.same_channel(self),
    {
        counter_increment(&self.shared.senders);
        Sender { shared: arc_clone(&self.shared) }
    }
}

impl<T> Drop for Sender<T> {
    /// Releases this producer handle: decrements the live sender count and,
    /// when this was the last sender, signals the condition variable so a
    /// blocked receiver observes closure.
    fn drop(&mut self)
        opens_invariants none
        no_unwind
    {
        let prev = counter_decrement(&self.shared.senders);
        if prev <= 1 {
            notify_one(&self.shared.available);
        }
    }
}

impl<T> Receiver<T> {
    /// The items already drained out of the shared queue, still owed to the
    /// consumer, in delivery order.
    pub closed spec fn cached(&self) -> Seq<T> {
        self.cache@
    }

    /// True when both handles belong to the same channel.
    pub closed spec fn same_channel(&self, other: &Receiver<T>) -> bool {
        self.shared == other.shared
    }

    /// Next pending item, in FIFO order.  Serves from the private cache
    /// without locking when it can; otherwise drains the shared queue,
    /// blocking on the condition variable while the queue is empty and a
    /// sender is still alive.  Fails with `NoSenders` exactly when queue,
    /// cache and live senders are all gone.
    pub fn recv(&mut self) -> (r: Result<T, ChannelClosed>)
        ensures
            final(self).same_channel(old(self)),
            old(self).cached().len() > 0 ==> {
                &&& r == Ok::<T, ChannelClosed>(old(self).cached()[0])
                &&& final(self).cached() == old(self).cached().skip(1)
            },
            old(self).cached().len() == 0 ==> (r matches Ok(v) ==> exists|q: Seq<T>|
                #![auto]
                q.len() > 0 && v == q[0] && final(self).cached() == q.skip(1)),
            r matches Err(e) ==> {
                &&& e == ChannelClosed::NoSenders || e == ChannelClosed::LockPoisoned
                &&& old(self).cached().len() == 0
                &&& final(self).cached().len() == 0
            },
    {
        if let Some(x) = self.cache.pop_front() {
            return Ok(x);
        }
        let locked = match lock_queue(&self.shared.queue) {
            Ok(g) => g,
            Err(e) => { return Err(e); },
        };
        let mut guard = match wait_available(&self.shared.available, &self.shared.senders, locked) {
            Ok(g) => g,
            Err(e) => { return Err(e); },
        };
        let queue = guarded_queue(&mut guard);
        let ghost observed = queue@;
        match drain_front(queue, &mut self.cache) {
            Some(x) => {
                proof {
                    assert(observed.len() > 0 && x == observed[0] && self.cached()
                        == observed.skip(1));
                    assert(exists|q: Seq<T>|
                        #![auto]
                        q.len() > 0 && x == q[0] && self.cached() == q.skip(1));
                }
                Ok(x)
            },
            None => Err(ChannelClosed::NoSenders),
        }
    }

    /// Snapshot of the live sender count; racing with concurrent clones and
    /// releases.
    pub fn total_senders(&self) -> usize {
        counter_load(&self.shared.senders)
    }

    /// How many items sit in the private cache, awaiting delivery without
    /// any locking.
    pub fn total_cached_items(&self) -> (n: usize)
        ensures
            n == self.cached().len(),
    {
        self.cache.len()
    }

    /// One step of the sequential consumption view: the next pending item,
    /// or `None` once the channel is permanently closed and drained.
    pub fn next(&mut self) -> (r: Option<T>)
        ensures
            final(self).same_channel(old(self)),
            old(self).cached().len() > 0 ==> {
                &&& r == Some(old(self).cached()[0])
                &&& final(self).cached() == old(self).cached().skip(1)
            },
            old(self).cached().len() == 0 ==> (r matches Some(v) ==> exists|q: Seq<T>|
                #![auto]
                q.len() > 0 && v == q[0] && final(self).cached() == q.skip(1)),
            r is None ==> old(self).cached().len() == 0 && final(self).cached().len() == 0,
    {
        match self.recv() {
            Ok(x) => Some(x),
            Err(_) => None,
        }
    }
}

impl<T> Drop for Receiver<T> {
    /// Releases the one consumer handle: decrements the live receiver
    /// count.  Senders never block, so nobody needs a wakeup.
    fn drop(&mut self)
        opens_invariants none
        no_unwind
    {
        counter_decrement(&self.shared.receivers);
    }
}

/// Creates one channel: fresh shared state with sender and receiver counts
/// of one, and the pair of handles bound to it.
pub fn unbounded<T>() -> (r: (Sender<T>, Receiver<T>))
    ensures
        r.0.sends_to(&r.1),
        r.1.cached().len() == 0,
{
    let shared = Arc::new(Shared::new());
    let sender = Sender { shared: arc_clone(&shared) };
    let receiver = Receiver { shared, cache: VecDeque::with_capacity(INITIAL_SIZE) };
    (sender, receiver)
}

} // verus!
