use tickclock::queue::WaiterQueue;
use tickclock::queue::WakeHandle;

fn handle(id: u64) -> WakeHandle {
    WakeHandle { id }
}

#[test]
fn empty_queue_reports_max_min_key() {
    let q = WaiterQueue::new(4);
    assert_eq!(q.len(), 0);
    assert_eq!(q.min_key(), u32::MAX);
}

#[test]
fn push_tracks_minimum_deadline() {
    let mut q = WaiterQueue::new(4);
    assert!(q.push(30, handle(1)));
    assert_eq!(q.min_key(), 30);
    assert!(q.push(10, handle(2)));
    assert_eq!(q.min_key(), 10);
    assert!(q.push(20, handle(3)));
    assert_eq!(q.min_key(), 10);
    assert_eq!(q.len(), 3);
}

#[test]
fn push_beyond_capacity_fails_and_changes_nothing() {
    let mut q = WaiterQueue::new(2);
    assert!(q.push(5, handle(1)));
    assert!(q.push(6, handle(2)));
    assert!(!q.push(1, handle(3)));
    assert_eq!(q.len(), 2);
    assert_eq!(q.min_key(), 5);
}

#[test]
fn zero_capacity_queue_accepts_nothing() {
    let mut q = WaiterQueue::new(0);
    assert!(!q.push(1, handle(1)));
    assert_eq!(q.len(), 0);
    assert_eq!(q.min_key(), u32::MAX);
}

#[test]
fn take_less_than_partitions_in_order_and_recomputes_min() {
    let mut q = WaiterQueue::new(8);
    assert!(q.push(4, handle(1)));
    assert!(q.push(9, handle(2)));
    assert!(q.push(2, handle(3)));
    assert!(q.push(7, handle(4)));
    let fired = q.take_less_than(7);
    assert_eq!(fired, vec![(4, handle(1)), (2, handle(3))]);
    assert_eq!(q.len(), 2);
    assert_eq!(q.min_key(), 7);
    let rest = q.take_less_than(u32::MAX);
    assert_eq!(rest, vec![(9, handle(2)), (7, handle(4))]);
    assert_eq!(q.len(), 0);
    assert_eq!(q.min_key(), u32::MAX);
}

#[test]
fn take_less_than_threshold_is_strict() {
    let mut q = WaiterQueue::new(4);
    assert!(q.push(3, handle(1)));
    assert_eq!(q.take_less_than(3), vec![]);
    assert_eq!(q.take_less_than(4), vec![(3, handle(1))]);
}

#[test]
fn equal_deadlines_all_leave_together() {
    let mut q = WaiterQueue::new(4);
    assert!(q.push(5, handle(1)));
    assert!(q.push(5, handle(2)));
    assert_eq!(q.take_less_than(6), vec![(5, handle(1)), (5, handle(2))]);
    assert_eq!(q.len(), 0);
}
