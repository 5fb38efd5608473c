use pipemonitor::queue::BoundedQueue;

#[test]
fn queue_new_is_empty() {
    let queue: BoundedQueue<u8> = BoundedQueue::new(3);
    assert_eq!(queue.len(), 0);
    assert_eq!(queue.max_capacity(), 3);
    assert!(queue.get(0).is_none());
}

#[test]
fn queue_try_new_rejects_zero() {
    assert!(BoundedQueue::<u8>::try_new(0).is_none());
    let queue = BoundedQueue::<u8>::try_new(2).unwrap();
    assert_eq!(queue.max_capacity(), 2);
    assert_eq!(queue.len(), 0);
}

#[test]
fn queue_push_evicts_the_front_when_full() {
    let mut queue: BoundedQueue<u8> = BoundedQueue::new(2);
    assert_eq!(queue.push_back(1), None);
    assert_eq!(queue.push_back(2), None);
    assert_eq!(queue.push_back(3), Some(1));
    assert_eq!(queue.push_back(4), Some(2));
    assert_eq!(queue.len(), 2);
    assert_eq!(queue[0], 3);
    assert_eq!(queue[1], 4);
    assert_eq!(queue.max_capacity(), 2);
}

#[test]
fn queue_pop_takes_the_front() {
    let mut queue: BoundedQueue<u8> = BoundedQueue::new(3);
    assert_eq!(queue.pop_front(), None);
    queue.push_back(1);
    queue.push_back(2);
    assert_eq!(queue.pop_front(), Some(1));
    assert_eq!(queue.len(), 1);
    assert_eq!(queue[0], 2);
    assert_eq!(queue.pop_front(), Some(2));
    assert_eq!(queue.pop_front(), None);
    assert_eq!(queue.len(), 0);
}

#[test]
fn queue_index_mut_writes_in_place() {
    let mut queue: BoundedQueue<u8> = BoundedQueue::new(3);
    queue.push_back(1);
    queue.push_back(2);
    *queue.index_mut(0) = 9;
    assert_eq!(queue.get(0), Some(&9));
    assert_eq!(queue.get(1), Some(&2));
    assert_eq!(queue.get(2), None);
}
