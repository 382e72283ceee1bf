use market_pipeline::queue::{
    BoundedQueue, INGEST_CAPACITY, LANE_CAPACITY, NOTIFY_CAPACITY, SIGNAL_CAPACITY,
};

#[test]
fn capacities_match_the_design() {
    assert_eq!(INGEST_CAPACITY, 4096);
    assert_eq!(LANE_CAPACITY, 1024);
    assert_eq!(NOTIFY_CAPACITY, 512);
    assert_eq!(SIGNAL_CAPACITY, 64);
}

#[test]
fn fifo_order_is_kept() {
    let mut q: BoundedQueue<u64> = BoundedQueue::new(4);
    q.send(10);
    q.send(20);
    q.send(30);
    assert_eq!(q.recv(), Some(10));
    assert_eq!(q.recv(), Some(20));
    q.send(40);
    assert_eq!(q.recv(), Some(30));
    assert_eq!(q.recv(), Some(40));
    assert_eq!(q.recv(), None);
}

#[test]
fn notify_queue_is_lossy_only_when_full() {
    // a producer that enqueues while under the bound always succeeds;
    // element 513 is dropped silently
    let mut q: BoundedQueue<u64> = BoundedQueue::new(NOTIFY_CAPACITY);
    for i in 0..(NOTIFY_CAPACITY as u64) {
        assert!(q.try_send(i));
    }
    assert_eq!(q.len(), NOTIFY_CAPACITY);
    assert!(!q.try_send(999));
    assert_eq!(q.len(), NOTIFY_CAPACITY);
    // the queue still holds exactly the accepted elements, in order
    for i in 0..(NOTIFY_CAPACITY as u64) {
        assert_eq!(q.recv(), Some(i));
    }
    assert_eq!(q.recv(), None);
}

#[test]
fn notify_queue_accepts_again_after_draining() {
    let mut q: BoundedQueue<u8> = BoundedQueue::new(2);
    assert!(q.try_send(1));
    assert!(q.try_send(2));
    assert!(!q.try_send(3));
    assert_eq!(q.recv(), Some(1));
    assert!(q.try_send(4));
    assert_eq!(q.recv(), Some(2));
    assert_eq!(q.recv(), Some(4));
}

#[test]
fn data_queue_under_backpressure_loses_nothing() {
    // the data path checks for room and waits; every element sent arrives
    let mut q: BoundedQueue<u64> = BoundedQueue::new(3);
    let mut received: Vec<u64> = Vec::new();
    let mut next: u64 = 0;
    while next < 10 {
        if q.is_full() {
            // backpressure: the producer throttles, the consumer drains
            received.push(q.recv().unwrap());
        } else {
            q.send(next);
            next += 1;
        }
    }
    while let Some(v) = q.recv() {
        received.push(v);
    }
    assert_eq!(received, (0..10).collect::<Vec<u64>>());
}
