use hiroz::compat::WaitTimeoutResult;
use hiroz::queue::{remaining_wait, BoundedQueue};

#[test]
fn push_drops_the_oldest_item_when_full() {
    let mut q = BoundedQueue::new(2);
    assert!(!q.push(1));
    assert!(!q.push(2));
    assert!(q.push(3));
    assert_eq!(q.len(), 2);
    assert_eq!(q.try_recv(), Some(2));
    assert_eq!(q.try_recv(), Some(3));
    assert_eq!(q.try_recv(), None);
    assert!(q.is_empty());
}

#[test]
fn queue_keeps_the_most_recent_items_in_order() {
    let mut q = BoundedQueue::new(3);
    for i in 0..10 {
        q.push(i);
    }
    assert_eq!(q.len(), 3);
    assert_eq!(q.try_recv(), Some(7));
    assert_eq!(q.try_recv(), Some(8));
    assert_eq!(q.try_recv(), Some(9));
}

#[test]
fn capacity_zero_keeps_only_the_newest_item() {
    let mut q = BoundedQueue::new(0);
    // Nothing is dropped from an empty queue, even at capacity 0.
    assert!(!q.push('a'));
    assert!(q.push('b'));
    assert_eq!(q.len(), 1);
    assert_eq!(q.capacity(), 0);
    assert_eq!(q.try_recv(), Some('b'));
}

#[test]
fn keep_all_capacity_never_drops() {
    let mut q = BoundedQueue::new(usize::MAX);
    for i in 0..2000 {
        assert!(!q.push(i));
    }
    assert_eq!(q.len(), 2000);
    assert_eq!(q.try_recv(), Some(0));
}

#[test]
fn try_recv_on_empty_queue_returns_none() {
    let mut q: BoundedQueue<u8> = BoundedQueue::new(4);
    assert!(q.is_empty());
    assert_eq!(q.try_recv(), None);
    assert_eq!(q.len(), 0);
}

#[test]
fn timed_receive_budget_is_not_extended() {
    let budget = 80_000_000;
    assert_eq!(remaining_wait(budget, 0), Some(budget));
    assert_eq!(remaining_wait(budget, 30_000_000), Some(50_000_000));
    assert_eq!(remaining_wait(budget, budget), None);
    assert_eq!(remaining_wait(budget, budget + 1), None);
    assert_eq!(remaining_wait(0, 0), None);
}

#[test]
fn wait_timeout_result_reports_its_outcome() {
    assert!(WaitTimeoutResult::new(true).timed_out());
    assert!(!WaitTimeoutResult::new(false).timed_out());
}
