use uart_irq::queue::{ByteQueue, Full, QUEUE_CAPACITY};

#[test]
fn fresh_queue_is_empty() {
    let mut q = ByteQueue::new();
    assert_eq!(q.len(), 0);
    assert_eq!(q.capacity(), QUEUE_CAPACITY);
    assert_eq!(q.dequeue(), None);
}

#[test]
fn enqueue_dequeue_is_fifo() {
    let mut q = ByteQueue::new();
    assert_eq!(q.enqueue(10), Ok(()));
    assert_eq!(q.enqueue(20), Ok(()));
    assert_eq!(q.enqueue(30), Ok(()));
    assert_eq!(q.len(), 3);
    assert_eq!(q.dequeue(), Some(10));
    assert_eq!(q.dequeue(), Some(20));
    assert_eq!(q.dequeue(), Some(30));
    assert_eq!(q.dequeue(), None);
}

#[test]
fn enqueue_full_fails_and_drops_byte() {
    let mut q = ByteQueue::new();
    for i in 0..32u8 {
        assert_eq!(q.enqueue(i), Ok(()));
    }
    assert_eq!(q.enqueue(99), Err(Full));
    assert_eq!(q.len(), 32);
}

#[test]
fn queue_bound_never_exceeds_capacity() {
    // Feeding far more bytes than the capacity leaves len() == 32 afterward,
    // under both backpressure policies.
    let mut newest = ByteQueue::new();
    let mut oldest = ByteQueue::new();
    for i in 0..100u8 {
        let _ = newest.enqueue(i);
        oldest.enqueue_drop_oldest(i);
        assert!(newest.len() <= 32);
        assert!(oldest.len() <= 32);
    }
    assert_eq!(newest.len(), 32);
    assert_eq!(oldest.len(), 32);
}

#[test]
fn drop_newest_keeps_the_oldest_bytes() {
    // 33 bytes into a drop-newest queue: byte 32 (the newest) is the one lost.
    let mut q = ByteQueue::new();
    for i in 0..33u8 {
        let _ = q.enqueue(i);
    }
    for i in 0..32u8 {
        assert_eq!(q.dequeue(), Some(i));
    }
    assert_eq!(q.dequeue(), None);
}

#[test]
fn drop_oldest_keeps_the_newest_bytes() {
    // 33 bytes into a drop-oldest queue: byte 0 (the oldest) is the one lost.
    let mut q = ByteQueue::new();
    for i in 0..33u8 {
        q.enqueue_drop_oldest(i);
    }
    for i in 1..33u8 {
        assert_eq!(q.dequeue(), Some(i));
    }
    assert_eq!(q.dequeue(), None);
}

#[test]
fn drop_oldest_below_capacity_keeps_everything() {
    let mut q = ByteQueue::new();
    q.enqueue_drop_oldest(1);
    q.enqueue_drop_oldest(2);
    assert_eq!(q.len(), 2);
    assert_eq!(q.dequeue(), Some(1));
    assert_eq!(q.dequeue(), Some(2));
}
