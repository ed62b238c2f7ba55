use log_transport::frame::{Frame, MAX_FRAME_LEN};
use log_transport::queue::{LogQueue, QueueFull};

fn frame(bytes: &[u8]) -> Frame {
    Frame::new(bytes.to_vec()).expect("payload within bound")
}

#[test]
fn fifo_order_preserved() {
    let mut q = LogQueue::new(64);
    assert!(q.enqueue(frame(b"A")).is_ok());
    assert!(q.enqueue(frame(b"B")).is_ok());
    assert!(q.enqueue(frame(b"C")).is_ok());
    let a = q.dequeue().expect("first frame");
    let b = q.dequeue().expect("second frame");
    let c = q.dequeue().expect("third frame");
    assert_eq!(a.payload(), &b"A".to_vec());
    assert_eq!(b.payload(), &b"B".to_vec());
    assert_eq!(c.payload(), &b"C".to_vec());
}

#[test]
fn full_queue_rejects_next_and_keeps_entries() {
    let mut q = LogQueue::new(2);
    assert!(q.enqueue(frame(b"A")).is_ok());
    assert!(q.enqueue(frame(b"B")).is_ok());
    assert_eq!(q.enqueue(frame(b"C")), Err(QueueFull));
    assert_eq!(q.len(), 2);
    assert_eq!(q.dequeue().unwrap().payload(), &b"A".to_vec());
    assert_eq!(q.dequeue().unwrap().payload(), &b"B".to_vec());
    assert!(q.dequeue().is_none());
}

#[test]
fn dequeue_on_empty_returns_none_repeatedly() {
    let mut q = LogQueue::new(4);
    assert!(q.dequeue().is_none());
    assert!(q.dequeue().is_none());
    assert_eq!(q.len(), 0);
}

#[test]
fn rejected_frames_are_counted() {
    let mut q = LogQueue::new(1);
    assert_eq!(q.dropped_frames(), 0);
    assert!(q.enqueue(frame(b"A")).is_ok());
    assert!(q.enqueue(frame(b"B")).is_err());
    assert!(q.enqueue(frame(b"C")).is_err());
    assert_eq!(q.dropped_frames(), 2);
    assert_eq!(q.len(), 1);
}

#[test]
fn slot_freed_by_consumer_can_be_reused() {
    let mut q = LogQueue::new(2);
    assert!(q.enqueue(frame(b"A")).is_ok());
    assert!(q.enqueue(frame(b"B")).is_ok());
    assert_eq!(q.enqueue(frame(b"C")), Err(QueueFull));
    assert_eq!(q.dequeue().unwrap().payload(), &b"A".to_vec());
    assert!(q.enqueue(frame(b"C")).is_ok());
    assert_eq!(q.dequeue().unwrap().payload(), &b"B".to_vec());
    assert_eq!(q.dequeue().unwrap().payload(), &b"C".to_vec());
}

#[test]
fn frame_over_bound_is_refused() {
    assert!(Frame::new(vec![0u8; MAX_FRAME_LEN + 1]).is_none());
    let f = Frame::new(vec![0u8; MAX_FRAME_LEN]).expect("at the bound is fine");
    assert_eq!(f.len(), MAX_FRAME_LEN);
}
