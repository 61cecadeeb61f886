use device_mirror::queue::BoundedQueue;

#[test]
fn fifo_order_is_kept() {
    let mut q: BoundedQueue<u32> = BoundedQueue::new(4);
    q.push(1);
    q.push(2);
    q.push(3);
    assert_eq!(q.len(), 3);
    assert_eq!(q.pop(), Some(1));
    assert_eq!(q.pop(), Some(2));
    assert_eq!(q.pop(), Some(3));
    assert_eq!(q.pop(), None);
}

#[test]
fn overflow_drops_the_oldest_entry() {
    let mut q: BoundedQueue<u32> = BoundedQueue::new(2);
    q.push(1);
    q.push(2);
    q.push(3);
    assert_eq!(q.len(), 2);
    assert_eq!(q.pop(), Some(2));
    assert_eq!(q.pop(), Some(3));
    assert_eq!(q.pop(), None);
}

#[test]
fn capacity_one_keeps_only_the_newest() {
    let mut q: BoundedQueue<u32> = BoundedQueue::new(1);
    for i in 0..5 {
        q.push(i);
    }
    assert_eq!(q.len(), 1);
    assert_eq!(q.pop(), Some(4));
}
