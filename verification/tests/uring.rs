use a10::sys::{
    EINTR, ETIME, IORING_ENTER_EXT_ARG, IORING_ENTER_GETEVENTS, IORING_ENTER_SQ_WAKEUP,
    IORING_SETUP_SINGLE_ISSUER, IORING_SETUP_SQPOLL, IORING_SQ_NEED_WAKEUP,
};
use a10::uring::{
    enter_flags, enter_outcome, pending_completions, plan_slot_wakeups,
    submissions_to_enter, SlotWakePlan,
    timeout_timespec, unsubmitted_submissions, wait_flags, Layout, Parameters,
};

#[test]
fn ring_layout() {
    let params = Parameters {
        sq_entries: 128,
        cq_entries: 256,
        flags: IORING_SETUP_SQPOLL,
        sq_off_array: 64,
        cq_off_cqes: 64,
    };
    assert_eq!(
        params.layout(),
        Layout {
            submission_ring_len: 64 + 128 * 4,
            submissions_len: 128 * 64,
            completion_ring_len: 64 + 256 * 16,
            kernel_thread: true,
            single_issuer: false,
        }
    );
    let params = Parameters { flags: IORING_SETUP_SINGLE_ISSUER, ..params };
    let layout = params.layout();
    assert!(!layout.kernel_thread);
    assert!(layout.single_issuer);
}

#[test]
fn submissions_to_pass() {
    assert_eq!(unsubmitted_submissions(3, 10), 7);
    assert_eq!(submissions_to_enter(false, 3, 10), 7);
    // A kernel thread reads the submissions itself.
    assert_eq!(submissions_to_enter(true, 3, 10), 0);
    assert_eq!(submissions_to_enter(false, 5, 5), 0);
    assert_eq!(unsubmitted_submissions(u32::MAX - 1, 2), 4);
    assert_eq!(submissions_to_enter(false, u32::MAX, 0), 1);
}

#[test]
fn flags_of_enter() {
    assert_eq!(enter_flags(false, IORING_SQ_NEED_WAKEUP, 0), IORING_ENTER_EXT_ARG);
    assert_eq!(enter_flags(true, 0, 0), IORING_ENTER_EXT_ARG);
    assert_eq!(
        enter_flags(true, IORING_SQ_NEED_WAKEUP, 0),
        IORING_ENTER_SQ_WAKEUP | IORING_ENTER_EXT_ARG
    );
    assert_eq!(
        enter_flags(false, 0, IORING_ENTER_GETEVENTS),
        IORING_ENTER_GETEVENTS | IORING_ENTER_EXT_ARG
    );
    assert_eq!(wait_flags(), IORING_ENTER_GETEVENTS | IORING_ENTER_EXT_ARG);
}

#[test]
fn timeout_as_timespec() {
    assert_eq!(timeout_timespec(1, 500), (1, 500));
    assert_eq!(timeout_timespec(0, 999_999_999), (0, 999_999_999));
    assert_eq!(timeout_timespec(i64::MAX as u64, 0), (i64::MAX, 0));
    assert_eq!(timeout_timespec(u64::MAX, 1), (i64::MAX, 1));
}

#[test]
fn outcome_of_enter() {
    assert_eq!(enter_outcome(Ok(3)), Ok(3));
    assert_eq!(enter_outcome(Err(ETIME)), Ok(0));
    assert_eq!(enter_outcome(Err(EINTR)), Ok(0));
    assert_eq!(enter_outcome(Err(9)), Err(9));
}

#[test]
fn completions_to_read() {
    assert_eq!(pending_completions(6, 10, 8), vec![6, 7, 0, 1]);
    assert_eq!(pending_completions(4, 4, 8), Vec::<u32>::new());
    assert_eq!(pending_completions(0, 3, 1), vec![0, 0, 0]);
    // Positions wrap around at 2^32.
    assert_eq!(pending_completions(u32::MAX - 1, 1, 8), vec![6, 7, 0]);
}

#[test]
fn wake_futures_with_a_slot() {
    assert_eq!(plan_slot_wakeups(10, 3, 2), SlotWakePlan { wake_waiting: 3, wake_added: 2 });
    assert_eq!(plan_slot_wakeups(10, 3, 8), SlotWakePlan { wake_waiting: 3, wake_added: 7 });
    assert_eq!(plan_slot_wakeups(2, 5, 1), SlotWakePlan { wake_waiting: 2, wake_added: 0 });
    assert_eq!(plan_slot_wakeups(0, 0, 4), SlotWakePlan { wake_waiting: 0, wake_added: 0 });
}
