//! The mathematical model of one channel, and the laws the channel obeys.
//!
//! A channel's logical state is the pending delivery sequence (private
//! cache first, then the shared queue) together with the two live-handle
//! counters.  The executable operations in `crate::channel` have their
//! contracts phrased over `delivery_order`; the transition functions here
//! describe one step of each operation as serialized by the shared lock,
//! and the proof functions state and prove the channel-wide guarantees.

use vstd::prelude::*;

use crate::channel::ChannelClosed;

verus! {

/// The items still owed to the consumer, in the order they will be
/// delivered: the private cache first, then the shared queue.
pub open spec fn delivery_order<T>(cache: Seq<T>, queue: Seq<T>) -> Seq<T> {
    cache + queue
}

/// The logical state of one channel: the shared FIFO queue, the receiver's
/// private cache, and the two live-handle counters.
pub struct ChannelModel<T> {
    pub queue: Seq<T>,
    pub cache: Seq<T>,
    pub senders: nat,
    pub receivers: nat,
}

/// Every item enqueued but not yet returned, in delivery order.
pub open spec fn pending<T>(m: ChannelModel<T>) -> Seq<T> {
    delivery_order(m.cache, m.queue)
}

/// What `total_queued_items` reports: the shared queue alone, never the
/// receiver's private cache.
pub open spec fn queued_items<T>(m: ChannelModel<T>) -> nat {
    m.queue.len()
}

/// A channel state that can actually be reached: there is at most one
/// receiver, and a cache only exists for it.
pub open spec fn wf<T>(m: ChannelModel<T>) -> bool {
    m.receivers <= 1
}

/// What one `recv` step does once the lock serializes it.
pub enum RecvStep<T> {
    /// An item was delivered and the state moved on.
    Deliver(T, ChannelModel<T>),
    /// The channel is closed for receiving: nothing pending, no senders.
    Fail(ChannelClosed),
    /// Nothing pending but a sender is alive: block on the condition
    /// variable and re-evaluate after the next wakeup.
    Wait,
}

/// One `send(v)` step: rejected exactly when no receiver is alive,
/// otherwise `v` goes to the back of the shared queue.
pub open spec fn send_step<T>(m: ChannelModel<T>, v: T) -> (Result<(), ChannelClosed>, ChannelModel<
    T,
>) {
    if m.receivers == 0 {
        (Err(ChannelClosed::NoReceivers), m)
    } else {
        (Ok(()), ChannelModel { queue: m.queue.push(v), ..m })
    }
}

/// One `recv` step: the cache front if the cache is non-empty; otherwise
/// the queue front, with the remainder of the queue swapped into the
/// cache; otherwise failure or blocking, by the sender count.
pub open spec fn recv_step<T>(m: ChannelModel<T>) -> RecvStep<T> {
    if m.cache.len() > 0 {
        RecvStep::Deliver(m.cache[0], ChannelModel { cache: m.cache.skip(1), ..m })
    } else if m.queue.len() > 0 {
        RecvStep::Deliver(
            m.queue[0],
            ChannelModel { queue: Seq::empty(), cache: m.queue.skip(1), ..m },
        )
    } else if m.senders == 0 {
        RecvStep::Fail(ChannelClosed::NoSenders)
    } else {
        RecvStep::Wait
    }
}

/// Cloning a sender handle.
pub open spec fn clone_sender_step<T>(m: ChannelModel<T>) -> ChannelModel<T> {
    ChannelModel { senders: m.senders + 1, ..m }
}

/// Releasing a sender handle.
pub open spec fn release_sender_step<T>(m: ChannelModel<T>) -> ChannelModel<T>
    recommends
        m.senders > 0,
{
    ChannelModel { senders: (m.senders - 1) as nat, ..m }
}

/// Releasing the receiver handle.
pub open spec fn release_receiver_step<T>(m: ChannelModel<T>) -> ChannelModel<T>
    recommends
        m.receivers > 0,
{
    ChannelModel { receivers: (m.receivers - 1) as nat, ..m }
}

/// The first `k` items a consumer obtains by stepping `recv` repeatedly.
pub open spec fn delivered<T>(m: ChannelModel<T>, k: nat) -> Seq<T>
    decreases k,
{
    if k == 0 {
        Seq::empty()
    } else {
        match recv_step(m) {
            RecvStep::Deliver(v, m2) => seq![v] + delivered(m2, (k - 1) as nat),
            _ => Seq::empty(),
        }
    }
}

/// FIFO order, send side: a successful send appends its value to the
/// pending delivery sequence and touches nothing else of it, whichever
/// sender handle performed it.
pub proof fn lemma_send_fifo<T>(m: ChannelModel<T>, v: T)
    ensures
        m.receivers > 0 ==> send_step(m, v).0 == Ok::<(), ChannelClosed>(())
            && pending(send_step(m, v).1) =~= pending(m).push(v),
        send_step(m, v).1.senders == m.senders,
        send_step(m, v).1.receivers == m.receivers,
{
}

/// FIFO order, receive side: whenever something is pending, one `recv`
/// step delivers exactly the front of the pending sequence and leaves
/// exactly its tail pending; it never fails and never blocks.
pub proof fn lemma_recv_fifo<T>(m: ChannelModel<T>)
    requires
        pending(m).len() > 0,
    ensures
        recv_step(m) matches RecvStep::Deliver(v, m2) && v == pending(m)[0] && pending(m2)
            =~= pending(m).skip(1),
{
    if m.cache.len() > 0 {
        let m2 = ChannelModel { cache: m.cache.skip(1), ..m };
        assert(pending(m2) =~= pending(m).skip(1));
    } else {
        let m2 = ChannelModel { queue: Seq::empty(), cache: m.queue.skip(1), ..m };
        assert(pending(m2) =~= pending(m).skip(1));
    }
}

/// FIFO order, end to end: the first `k` items delivered by repeated
/// `recv` steps are exactly the first `k` pending items, in the order in
/// which their sends were serialized by the shared lock.
pub proof fn lemma_fifo_order<T>(m: ChannelModel<T>, k: nat)
    requires
        k <= pending(m).len(),
    ensures
        delivered(m, k) =~= pending(m).take(k as int),
    decreases k,
{
    if k > 0 {
        lemma_recv_fifo(m);
        let step = recv_step(m);
        match step {
            RecvStep::Deliver(v, m2) => {
                lemma_fifo_order(m2, (k - 1) as nat);
                assert(seq![v] + pending(m2).take(k - 1) =~= pending(m).take(k as int));
            },
            _ => {},
        }
    }
}

/// Sender closure: once the receiver has been released, this and every
/// later send fails with `NoReceivers` and leaves the whole state, queue
/// included, unchanged — the receiver count can never rise again.
pub proof fn lemma_send_after_receiver_released<T>(m: ChannelModel<T>, v: T)
    requires
        m.receivers == 0,
    ensures
        send_step(m, v).0 == Err::<(), ChannelClosed>(ChannelClosed::NoReceivers),
        send_step(m, v).1 == m,
{
}

/// Receiver closure liveness: once no sender is alive, a `recv` step never
/// blocks — it either delivers a still-pending item or fails with
/// `NoSenders` — so a consumer woken by the last sender's release signal
/// returns instead of waiting forever.
pub proof fn lemma_recv_no_senders<T>(m: ChannelModel<T>)
    requires
        m.senders == 0,
    ensures
        !(recv_step(m) is Wait),
        pending(m).len() == 0 ==> recv_step(m) == RecvStep::<T>::Fail(ChannelClosed::NoSenders),
        pending(m).len() > 0 ==> (recv_step(m) matches RecvStep::Deliver(v, _) && v == pending(
            m,
        )[0]),
{
    if pending(m).len() > 0 {
        lemma_recv_fifo(m);
    }
}

/// Counter correctness: cloning a sender raises the live sender count by
/// exactly one and releasing one lowers it by exactly one, never crossing
/// zero; the receiver count only falls, from its bound of one, so it is
/// always zero or one.
pub proof fn lemma_counter_correctness<T>(m: ChannelModel<T>)
    ensures
        clone_sender_step(m).senders == m.senders + 1,
        clone_sender_step(m).receivers == m.receivers,
        m.senders > 0 ==> release_sender_step(m).senders == m.senders - 1,
        m.receivers > 0 ==> release_receiver_step(m).receivers == m.receivers - 1,
        wf(m) ==> wf(clone_sender_step(m)),
        wf(m) && m.senders > 0 ==> wf(release_sender_step(m)),
        wf(m) && m.receivers > 0 ==> wf(release_receiver_step(m)),
        wf(m) && m.receivers > 0 ==> (release_receiver_step(m).receivers == 0 <==> m.receivers
            == 1),
{
}

/// Cache transparency: the queue-length report covers the shared queue
/// only, never the private cache, while cache and queue together always
/// hold exactly the enqueued-but-not-yet-returned items; a send grows that
/// pending count by one and a delivering recv shrinks it by one.
pub proof fn lemma_cache_transparency<T>(m: ChannelModel<T>, v: T)
    ensures
        queued_items(m) == m.queue.len(),
        m.queue.len() + m.cache.len() == pending(m).len(),
        m.receivers > 0 ==> pending(send_step(m, v).1).len() == pending(m).len() + 1,
        recv_step(m) matches RecvStep::Deliver(d, m2) ==> pending(m2).len() == pending(m).len() - 1,
{
    if pending(m).len() > 0 {
        lemma_recv_fifo(m);
    }
}

} // verus!
