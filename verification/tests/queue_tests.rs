use microdsp_demo::queue::OutgoingEventQueue;
use microdsp_demo::AppMessage;

#[test]
fn length_never_exceeds_capacity() {
    let mut q = OutgoingEventQueue::new(3);
    for _ in 0..10 {
        q.push(AppMessage::Led0On);
        assert!(q.len() <= q.capacity());
    }
    assert_eq!(q.len(), 3);
}

#[test]
fn push_beyond_capacity_is_a_no_op() {
    let mut q = OutgoingEventQueue::new(2);
    q.push(AppMessage::Led0On);
    q.push(AppMessage::Led1On);
    // full: these must be dropped without touching the existing entries
    q.push(AppMessage::Led2On);
    q.push(AppMessage::Led3On);
    assert_eq!(q.len(), 2);
    assert_eq!(q.pop(), Some(AppMessage::Led1On));
    assert_eq!(q.pop(), Some(AppMessage::Led0On));
    assert_eq!(q.pop(), None);
}

#[test]
fn pop_is_last_in_first_out() {
    let mut q = OutgoingEventQueue::new(8);
    q.push(AppMessage::Led0On);
    q.push(AppMessage::Led1On);
    q.push(AppMessage::Led2On);
    assert_eq!(q.pop(), Some(AppMessage::Led2On));
    assert_eq!(q.pop(), Some(AppMessage::Led1On));
    q.push(AppMessage::Led3Off);
    assert_eq!(q.pop(), Some(AppMessage::Led3Off));
    assert_eq!(q.pop(), Some(AppMessage::Led0On));
    assert_eq!(q.pop(), None);
}

#[test]
fn pop_on_empty_queue_is_none() {
    let mut q = OutgoingEventQueue::new(4);
    assert_eq!(q.pop(), None);
    q.push(AppMessage::Led0Off);
    assert_eq!(q.pop(), Some(AppMessage::Led0Off));
    assert_eq!(q.pop(), None);
}
