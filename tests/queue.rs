use audio_pipeline::queue::{BoundedQueue, PushOutcome};

#[test]
fn overflow_drops_newest_and_keeps_oldest() {
    for capacity in 0..6usize {
        let mut q: BoundedQueue<u32> = BoundedQueue::new(capacity);
        for i in 0..capacity {
            assert_eq!(q.try_push(i as u32), PushOutcome::Accepted);
        }
        assert_eq!(q.try_push(999), PushOutcome::Dropped);
        assert_eq!(q.len(), capacity);
        assert_eq!(q.dropped(), 1);
        for i in 0..capacity {
            assert_eq!(q.try_pop(), Some(i as u32));
        }
        assert_eq!(q.try_pop(), None);
    }
}

#[test]
fn fifo_order_across_interleaving() {
    let mut q: BoundedQueue<u8> = BoundedQueue::new(3);
    assert_eq!(q.try_push(1), PushOutcome::Accepted);
    assert_eq!(q.try_push(2), PushOutcome::Accepted);
    assert_eq!(q.try_pop(), Some(1));
    assert_eq!(q.try_push(3), PushOutcome::Accepted);
    assert_eq!(q.try_push(4), PushOutcome::Accepted);
    assert!(q.is_full());
    assert_eq!(q.try_push(5), PushOutcome::Dropped);
    assert_eq!(q.try_pop(), Some(2));
    assert_eq!(q.try_pop(), Some(3));
    assert_eq!(q.try_pop(), Some(4));
    assert!(q.is_empty());
    assert_eq!(q.dropped(), 1);
}

#[test]
fn pop_on_empty_is_none() {
    let mut q: BoundedQueue<i16> = BoundedQueue::new(4);
    assert_eq!(q.try_pop(), None);
    assert_eq!(q.capacity(), 4);
    assert_eq!(q.dropped(), 0);
}

#[test]
fn zero_capacity_drops_everything() {
    let mut q: BoundedQueue<i16> = BoundedQueue::new(0);
    assert!(q.is_full());
    assert_eq!(q.try_push(7), PushOutcome::Dropped);
    assert_eq!(q.try_push(8), PushOutcome::Dropped);
    assert_eq!(q.len(), 0);
    assert_eq!(q.dropped(), 2);
}

#[test]
fn clear_discards_contents_and_keeps_count() {
    let mut q: BoundedQueue<i16> = BoundedQueue::new(1);
    assert_eq!(q.try_push(1), PushOutcome::Accepted);
    assert_eq!(q.try_push(2), PushOutcome::Dropped);
    q.clear();
    assert!(q.is_empty());
    assert_eq!(q.dropped(), 1);
    assert_eq!(q.try_push(3), PushOutcome::Accepted);
    assert_eq!(q.try_pop(), Some(3));
}
