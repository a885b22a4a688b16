use std::io::ErrorKind;

use uring_sqe::flags::FsyncFlags;
use uring_sqe::slot::SubmissionSlot;
use uring_sqe::SubmissionQueue;

#[test]
fn new_queue_has_nothing_pending() {
    assert_eq!(SubmissionQueue::new().pending(), 0);
}

#[test]
fn full_ring_gives_none() {
    let mut queue = SubmissionQueue::new();
    assert!(queue.next_sqe(None).is_none());
    assert_eq!(queue.pending(), 0);
}

#[test]
fn acquired_slot_is_handed_out_as_it_is() {
    let mut slot = SubmissionSlot { user_data: 5, opcode: 2, ..SubmissionSlot::zeroed() };
    let mut queue = SubmissionQueue::new();
    {
        let event = queue.next_sqe(Some(&mut slot)).expect("the ring gave a slot");
        assert_eq!(event.user_data(), 5);
        assert_eq!(event.raw().opcode, 2);
    }
    assert_eq!(queue.pending(), 1);
}

#[test]
fn submit_on_an_empty_batch_is_zero() {
    let mut queue = SubmissionQueue::new();
    let count = queue.submit(0).expect("zero is a count, not an error");
    assert_eq!(count, 0);
    assert_eq!(queue.pending(), 0);
}

#[test]
fn fsync_scenario_through_the_queue() {
    let mut slot = SubmissionSlot::zeroed();
    let mut queue = SubmissionQueue::new();
    {
        let mut event = queue.next_sqe(Some(&mut slot)).expect("the ring gave a slot");
        event.prep_fsync(3, FsyncFlags::fsync_datasync());
        event.set_user_data(42);
    }
    let count = queue.submit(1).expect("one slot was taken");
    assert_eq!(count, 1);
    assert_eq!(queue.pending(), 0);
    assert_eq!(slot.opcode, 3);
    assert_eq!(slot.fd, 3);
    assert_eq!(slot.off, 0);
    assert_eq!(slot.addr, 0);
    assert_eq!(slot.len, 0);
    assert_eq!(slot.cmd_flags & 1, 1);
    assert_eq!(slot.user_data, 42);
}

#[test]
fn acquire_until_full_then_submit() {
    let mut slots = vec![SubmissionSlot::zeroed(); 4];
    let mut queue = SubmissionQueue::new();
    let mut acquired = 0;
    let mut ring = slots.iter_mut();
    loop {
        match queue.next_sqe(ring.next()) {
            Some(mut event) => {
                event.prep_nop();
                event.set_user_data(acquired);
                acquired += 1;
            }
            None => break,
        }
    }
    assert_eq!(acquired, 4);
    assert_eq!(queue.pending(), 4);
    let count = queue.submit(4).expect("the batch was taken");
    assert!(count as u64 <= acquired);
    assert_eq!(count, 4);
    assert_eq!(queue.pending(), 0);
    for (tag, slot) in slots.iter().enumerate() {
        assert_eq!(slot.user_data, tag as u64);
    }
}

#[test]
fn partial_flush_leaves_the_rest_pending() {
    let mut slots = vec![SubmissionSlot::zeroed(); 3];
    let mut queue = SubmissionQueue::new();
    for slot in slots.iter_mut() {
        assert!(queue.next_sqe(Some(slot)).is_some());
    }
    assert_eq!(queue.submit(2).expect("two were taken"), 2);
    assert_eq!(queue.pending(), 1);
    assert_eq!(queue.submit(1).expect("one was taken"), 1);
    assert_eq!(queue.pending(), 0);
}

#[test]
fn count_above_the_batch_is_passed_on() {
    let mut queue = SubmissionQueue::new();
    assert_eq!(queue.submit(3).expect("a count"), 3);
    assert_eq!(queue.pending(), 0);
    assert_eq!(queue.submit(i32::MAX).expect("a count"), i32::MAX as usize);
}

#[test]
fn negative_code_is_the_error_it_stands_for() {
    let mut slot = SubmissionSlot::zeroed();
    let mut queue = SubmissionQueue::new();
    assert!(queue.next_sqe(Some(&mut slot)).is_some());
    let invalid = queue.submit(-libc::EINVAL).expect_err("a negative code");
    assert_eq!(invalid.raw_os_error(), Some(libc::EINVAL));
    assert_eq!(invalid.raw_os_error(), Some(22));
    assert_eq!(invalid.kind(), ErrorKind::InvalidInput);
    assert_eq!(queue.pending(), 1);
    let busy = queue.submit(-libc::EBUSY).expect_err("a negative code");
    assert_eq!(busy.raw_os_error(), Some(libc::EBUSY));
    assert_eq!(busy.raw_os_error(), Some(16));
    assert_ne!(invalid.raw_os_error(), busy.raw_os_error());
    let minus_one = queue.submit(-1).expect_err("a negative code");
    assert_eq!(minus_one.raw_os_error(), Some(1));
    let greatest = queue.submit(-i32::MAX).expect_err("a negative code");
    assert_eq!(greatest.raw_os_error(), Some(i32::MAX));
    assert_eq!(queue.pending(), 1);
}

#[test]
fn least_code_has_no_negation_and_is_kept() {
    let mut queue = SubmissionQueue::new();
    let least = queue.submit(i32::MIN).expect_err("a negative code");
    assert_eq!(least.raw_os_error(), Some(i32::MIN));
    let waited = queue.submit_and_wait(1, i32::MIN).expect_err("a negative code");
    assert_eq!(waited.raw_os_error(), Some(i32::MIN));
}

#[test]
fn submit_and_wait_reads_the_code_as_submit_does() {
    let mut slot = SubmissionSlot::zeroed();
    let mut queue = SubmissionQueue::new();
    assert!(queue.next_sqe(Some(&mut slot)).is_some());
    let failed = queue.submit_and_wait(1, -libc::EAGAIN).expect_err("a negative code");
    assert_eq!(failed.raw_os_error(), Some(libc::EAGAIN));
    assert_eq!(failed.kind(), ErrorKind::WouldBlock);
    let busy = queue.submit_and_wait(1, -16).expect_err("a negative code");
    assert_eq!(busy.raw_os_error(), Some(16));
    assert_eq!(busy.raw_os_error(), Some(libc::EBUSY));
    assert_eq!(queue.pending(), 1);
    assert_eq!(queue.submit_and_wait(1, 1).expect("one was taken"), 1);
    assert_eq!(queue.pending(), 0);
    assert_eq!(queue.submit_and_wait(0, 0).expect("nothing to take"), 0);
    assert_eq!(queue.submit_and_wait(u32::MAX, 0).expect("nothing to take"), 0);
}
