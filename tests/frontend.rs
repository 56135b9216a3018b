use critical_section::RestoreState;
use usb_logger::buffer::{FrameBuffer, CAPACITY};
use usb_logger::frontend::{inner, Frontend, LogQueue};
use usb_logger::signal::ReadySignal;

#[test]
fn three_frames_accumulate_in_order() {
    let mut guard = Frontend::new();
    let mut queue = LogQueue::new();
    for _ in 0..3 {
        assert!(!guard.is_held());
        guard.acquire(RestoreState::invalid());
        assert_eq!(guard.write(&mut queue, &[0xAA, 0xBB, 0xCC]), 3);
        guard.release();
    }
    assert_eq!(
        queue.buffer.to_vec(),
        vec![0xAA, 0xBB, 0xCC, 0xAA, 0xBB, 0xCC, 0xAA, 0xBB, 0xCC]
    );
    assert!(queue.signal.is_pending());
}

#[test]
fn second_acquire_before_release_is_reentrant() {
    let mut guard = Frontend::new();
    assert!(!guard.is_held());
    guard.acquire(RestoreState::invalid());
    // a second acquisition now would be the fatal path: the guard says so
    assert!(guard.is_held());
    guard.release();
    assert!(!guard.is_held());
    guard.acquire(RestoreState::invalid());
    assert!(guard.is_held());
}

#[test]
fn flush_changes_nothing() {
    let mut guard = Frontend::new();
    guard.flush();
    assert!(!guard.is_held());
    guard.acquire(RestoreState::invalid());
    guard.flush();
    assert!(guard.is_held());
}

#[test]
fn append_past_capacity_drops_only_excess() {
    let mut buf = FrameBuffer::new();
    let first: Vec<u8> = (0..1000u32).map(|i| (i % 251) as u8).collect();
    assert_eq!(buf.append(&first), 1000);
    assert_eq!(buf.len(), 1000);
    let second: Vec<u8> = vec![7u8; 100];
    assert_eq!(buf.append(&second), 24);
    assert_eq!(buf.len(), CAPACITY);
    let held = buf.to_vec();
    assert_eq!(&held[..1000], &first[..]);
    assert_eq!(&held[1000..], &[7u8; 24][..]);
    assert_eq!(buf.append(&[1, 2, 3]), 0);
    assert_eq!(buf.len(), CAPACITY);
}

#[test]
fn append_of_exact_capacity_fits() {
    let mut buf = FrameBuffer::new();
    assert_eq!(buf.append(&vec![9u8; CAPACITY]), CAPACITY);
    assert_eq!(buf.len(), 1024);
}

#[test]
fn take_all_then_append_keeps_new_bytes() {
    let mut buf = FrameBuffer::new();
    buf.append(&[1, 2, 3]);
    assert_eq!(buf.take_all(), vec![1, 2, 3]);
    assert_eq!(buf.len(), 0);
    assert_eq!(buf.append(&[4, 5]), 2);
    assert_eq!(buf.to_vec(), vec![4, 5]);
    assert_eq!(buf.take_all(), vec![4, 5]);
    assert_eq!(buf.take_all(), Vec::<u8>::new());
}

#[test]
fn notifications_coalesce_into_one_wake() {
    let mut s = ReadySignal::new();
    assert!(!s.is_pending());
    for _ in 0..5 {
        s.notify();
    }
    assert!(s.take());
    assert!(!s.take());
    s.notify();
    s.reset();
    assert!(!s.is_pending());
    assert!(!s.take());
    s.notify();
    assert!(s.take());
}

#[test]
fn inner_stores_and_wakes() {
    let mut queue = LogQueue::new();
    assert_eq!(inner(&mut queue, &[1, 2]), 2);
    assert!(queue.signal.is_pending());
    assert_eq!(queue.drain(), vec![1, 2]);
    assert!(!queue.signal.is_pending());
    assert_eq!(queue.buffer.len(), 0);
}

#[test]
fn inner_on_full_buffer_does_not_wake() {
    let mut queue = LogQueue::new();
    assert_eq!(inner(&mut queue, &vec![3u8; CAPACITY]), CAPACITY);
    queue.signal.reset();
    assert_eq!(inner(&mut queue, &[1]), 0);
    assert!(!queue.signal.is_pending());
    assert_eq!(queue.buffer.len(), CAPACITY);
}

#[test]
fn empty_write_wakes() {
    let mut queue = LogQueue::new();
    assert_eq!(inner(&mut queue, &[]), 0);
    assert!(queue.signal.is_pending());
    assert_eq!(queue.buffer.len(), 0);
    inner(&mut queue, &[9]);
    assert_eq!(queue.drain(), vec![9]);
    assert!(!queue.signal.is_pending());
    assert_eq!(inner(&mut queue, &[]), 0);
    assert!(queue.signal.is_pending());
}

#[test]
fn write_right_after_drain_lands_and_wakes() {
    let mut queue = LogQueue::new();
    inner(&mut queue, &[1, 2, 3]);
    assert_eq!(queue.drain(), vec![1, 2, 3]);
    assert_eq!(inner(&mut queue, &[4, 5]), 2);
    assert!(queue.signal.is_pending());
    assert_eq!(queue.buffer.to_vec(), vec![4, 5]);
}
