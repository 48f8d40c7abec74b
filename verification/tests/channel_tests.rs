use std::collections::VecDeque;

use mpsc_kv::channel::{drain_front, enqueue, must_wait, unbounded, ChannelClosed};

#[test]
fn channel_should_work() {
    let (mut s, mut r) = unbounded();
    s.send(String::from("Hello world!")).unwrap();
    let msg = r.recv().unwrap();
    assert_eq!("Hello world!", msg);
}

#[test]
fn sender_should_error_when_all_receivers_are_dropped() {
    let (mut s1, mut s2) = {
        let (s, _) = unbounded();
        (s.clone(), s.clone())
    };

    assert!(s1.send(1).is_err());
    assert!(s2.send(1).is_err());
}

#[test]
fn receiver_cache_should_work() {
    let (mut s, mut r) = unbounded();

    for msg in 0..10 {
        s.send(msg).unwrap();
    }

    // nothing has been read yet, so the cache is still empty
    assert!(r.total_cached_items() == 0);
    // reading one item drains the whole queue into the cache
    assert_eq!(0, r.recv().unwrap());
    assert_eq!(9, r.total_cached_items());
    assert_eq!(0, s.total_queued_items());

    // the remaining items come out of the cache, in order
    for idx in 0..9 {
        let msg = r.recv().unwrap();
        assert_eq!(idx + 1, msg);
    }
}

#[test]
fn three_senders_no_loss_no_duplication() {
    let (s, mut r) = unbounded();
    let mut s1 = s.clone();
    let mut s2 = s.clone();
    let mut s0 = s;

    s1.send(2).unwrap();
    s0.send(1).unwrap();
    s2.send(3).unwrap();
    drop(s0);
    drop(s1);
    drop(s2);

    let mut result: Vec<i32> = Vec::new();
    loop {
        match r.recv() {
            Ok(v) => result.push(v),
            Err(e) => {
                assert_eq!(ChannelClosed::NoSenders, e);
                break;
            }
        }
    }
    result.sort();
    assert_eq!(vec![1, 2, 3], result);
}

#[test]
fn fifo_order_across_senders() {
    let (mut s0, mut r) = unbounded();
    let mut s1 = s0.clone();
    let mut sent: Vec<u64> = Vec::new();
    for i in 0..20u64 {
        if i % 2 == 0 {
            s0.send(i).unwrap();
        } else {
            s1.send(i).unwrap();
        }
        sent.push(i);
    }
    for expected in sent {
        assert_eq!(expected, r.recv().unwrap());
    }
}

#[test]
fn recv_fails_once_senders_are_gone_and_queue_is_drained() {
    let (mut s, mut r) = unbounded();
    s.send("hello").unwrap();
    s.send("world").unwrap();
    drop(s);
    // everything already queued is still delivered...
    assert_eq!("hello", r.recv().unwrap());
    assert_eq!("world", r.recv().unwrap());
    // ...then the closure is observed, again and again
    assert_eq!(Err(ChannelClosed::NoSenders), r.recv());
    assert_eq!(Err(ChannelClosed::NoSenders), r.recv());
}

#[test]
fn send_after_receiver_dropped_leaves_queue_unread() {
    let (s, r) = unbounded();
    let mut s = s;
    drop(r);
    assert_eq!(Err(ChannelClosed::NoReceivers), s.send(7));
    assert_eq!(0, s.total_queued_items());
    assert_eq!(0, s.total_receivers());
}

#[test]
fn counters_track_clones_and_releases() {
    let (s, r) = unbounded::<u8>();
    assert_eq!(1, r.total_senders());
    assert_eq!(1, s.total_receivers());

    let s2 = s.clone();
    assert_eq!(2, r.total_senders());
    let s3 = s2.clone();
    assert_eq!(3, r.total_senders());

    drop(s3);
    assert_eq!(2, r.total_senders());
    drop(s2);
    assert_eq!(1, r.total_senders());
    drop(s);
    assert_eq!(0, r.total_senders());
}

#[test]
fn queue_and_cache_lengths_account_for_every_pending_item() {
    let (mut s, mut r) = unbounded();
    for i in 0..5 {
        s.send(i).unwrap();
        assert_eq!((i + 1) as usize, s.total_queued_items() + r.total_cached_items());
    }
    assert_eq!(5, s.total_queued_items());
    assert_eq!(0, r.total_cached_items());

    assert_eq!(0, r.recv().unwrap());
    // one item was delivered; the other four moved into the cache
    assert_eq!(0, s.total_queued_items());
    assert_eq!(4, r.total_cached_items());

    s.send(5).unwrap();
    assert_eq!(1, s.total_queued_items());
    assert_eq!(4, r.total_cached_items());

    // cached items are served first, so order is kept
    for expected in 1..6 {
        assert_eq!(expected, r.recv().unwrap());
    }
}

#[test]
fn next_yields_items_then_stops_at_closure() {
    let (mut s, mut r) = unbounded();
    s.send(10).unwrap();
    s.send(20).unwrap();
    drop(s);
    assert_eq!(Some(10), r.next());
    assert_eq!(Some(20), r.next());
    assert_eq!(None, r.next());
    assert_eq!(None, r.next());
}

#[test]
fn enqueue_reports_empty_to_nonempty_transitions() {
    let mut queue: VecDeque<u32> = VecDeque::new();
    assert!(enqueue(&mut queue, 1));
    assert!(!enqueue(&mut queue, 2));
    assert!(!enqueue(&mut queue, 3));
    assert_eq!(vec![1, 2, 3], queue.iter().copied().collect::<Vec<u32>>());
}

#[test]
fn drain_front_takes_front_and_caches_the_rest() {
    let mut queue: VecDeque<u32> = VecDeque::from(vec![1, 2, 3]);
    let mut cache: VecDeque<u32> = VecDeque::new();
    assert_eq!(Some(1), drain_front(&mut queue, &mut cache));
    assert_eq!(0, queue.len());
    assert_eq!(vec![2, 3], cache.iter().copied().collect::<Vec<u32>>());

    let mut empty: VecDeque<u32> = VecDeque::new();
    let mut cache2: VecDeque<u32> = VecDeque::new();
    assert_eq!(None, drain_front(&mut empty, &mut cache2));
    assert_eq!(0, cache2.len());
}

#[test]
fn wait_condition_holds_only_while_empty_with_live_senders() {
    let empty: VecDeque<u8> = VecDeque::new();
    let full: VecDeque<u8> = VecDeque::from(vec![1]);
    assert!(must_wait(&empty, 1));
    assert!(!must_wait(&empty, 0));
    assert!(!must_wait(&full, 1));
    assert!(!must_wait(&full, 0));
}
