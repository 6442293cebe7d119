use a10::cq::{
    fallback, poll_outcome, Completion, CompletionAction, CompletionFlags, OpError, PollOutcome,
    QueuedOperations, Taken, NO_COMPLETION_ID, WAKE_ID,
};
use a10::io::traits::BufId;
use a10::sq::QueueFull;
use a10::sys::{
    ECANCELED, EINTR, EINVAL, IORING_CQE_F_BUFFER, IORING_CQE_F_MORE, IORING_CQE_F_NOTIF,
};

fn event(id: usize, res: i32, flags: u32) -> Completion {
    Completion { user_data: id as u64, res, flags }
}

#[test]
fn completion_id_and_flags() {
    let c = event(5, 10, IORING_CQE_F_MORE);
    assert_eq!(c.id(), 5);
    assert!(c.more_events());
    assert_eq!(c.operation_flags(), 0);

    let c = event(5, 10, IORING_CQE_F_BUFFER | (7 << 16));
    assert!(!c.more_events());
    assert_eq!(c.operation_flags(), 7);
}

#[test]
fn completion_flags_buffer_id() {
    assert_eq!(CompletionFlags(IORING_CQE_F_BUFFER | (3 << 16)).buf_id(), Some(BufId(3)));
    assert_eq!(CompletionFlags(3 << 16).buf_id(), None);
    assert_eq!(CompletionFlags::empty(), CompletionFlags(0));
    assert_eq!(CompletionFlags::empty().buf_id(), None);
}

#[test]
fn completion_check_result() {
    assert_eq!(event(0, 3, 0).check_result(), Ok(3));
    assert_eq!(event(0, 0, 0).check_result(), Ok(0));
    assert_eq!(event(0, -4, 0).check_result(), Err(4));
}

#[test]
fn fallback_maps_invalid_argument_to_unsupported() {
    assert_eq!(fallback(OpError::Os(EINVAL)), OpError::Unsupported);
    assert_eq!(fallback(OpError::Os(2)), OpError::Os(2));
    assert_eq!(fallback(OpError::Unsupported), OpError::Unsupported);
}

#[test]
fn queue_hands_out_lowest_available_id() {
    let mut ops = QueuedOperations::new(2);
    assert_eq!(ops.capacity(), 64);
    assert_eq!(ops.queue(false), Ok(0));
    assert_eq!(ops.queue(true), Ok(1));
    assert!(ops.is_queued(0));
    assert!(ops.is_queued(1));
    assert!(!ops.is_queued(2));
    assert!(!ops.is_queued(1000));

    // Finishing the first operation makes id 0 available again.
    assert_eq!(ops.complete(event(0, 1, 0)), CompletionAction::Wake);
    assert!(matches!(ops.take_result(0), Taken::Result { .. }));
    assert_eq!(ops.queue(false), Ok(0));
    assert_eq!(ops.queue(false), Ok(2));
}

#[test]
fn queue_full() {
    let mut ops = QueuedOperations::new(64);
    for n in 0..64 {
        assert_eq!(ops.queue(false), Ok(n));
    }
    assert_eq!(ops.queue(false), Err(QueueFull));
    ops.drop_operation(10);
    // Still running: the id stays in use until the last event.
    assert_eq!(ops.queue(false), Err(QueueFull));
    assert_eq!(ops.complete(event(10, 0, 0)), CompletionAction::Released);
    assert_eq!(ops.queue(false), Ok(10));
}

#[test]
fn complete_then_take() {
    let mut ops = QueuedOperations::new(8);
    let id = ops.queue(false).unwrap();
    assert_eq!(ops.take_result(id), Taken::Pending);
    let c = event(id, 5, 0);
    assert_eq!(ops.complete(c), CompletionAction::Wake);
    assert_eq!(ops.take_result(id), Taken::Result { completion: c, done: true, last: true });
    assert!(!ops.is_queued(id));
    assert_eq!(ops.take_result(id), Taken::Finished);
}

#[test]
fn single_result_waits_for_last_event() {
    // A zero copy send: first the number of bytes sent, then the notification
    // that the buffer can be reused.
    let mut ops = QueuedOperations::new(8);
    let id = ops.queue(false).unwrap();
    let sent = event(id, 100, IORING_CQE_F_MORE);
    assert_eq!(ops.complete(sent), CompletionAction::Wake);
    assert_eq!(ops.take_result(id), Taken::Pending);
    assert_eq!(ops.complete(event(id, 0, IORING_CQE_F_NOTIF)), CompletionAction::Wake);
    assert_eq!(ops.take_result(id), Taken::Result { completion: sent, done: true, last: true });
    assert!(!ops.is_queued(id));
}

#[test]
fn later_result_replaces_earlier_one() {
    let mut ops = QueuedOperations::new(8);
    let id = ops.queue(false).unwrap();
    assert_eq!(ops.complete(event(id, 1, IORING_CQE_F_MORE)), CompletionAction::Wake);
    let last = event(id, 2, 0);
    assert_eq!(ops.complete(last), CompletionAction::Wake);
    assert_eq!(ops.take_result(id), Taken::Result { completion: last, done: true, last: true });
}

#[test]
fn multishot_results_in_order() {
    let mut ops = QueuedOperations::new(8);
    let id = ops.queue(true).unwrap();
    let first = event(id, 1, IORING_CQE_F_MORE);
    let second = event(id, 2, IORING_CQE_F_MORE);
    let third = event(id, 3, 0);
    assert_eq!(ops.complete(first), CompletionAction::Wake);
    assert_eq!(ops.complete(second), CompletionAction::Wake);
    assert_eq!(ops.take_result(id), Taken::Result { completion: first, done: false, last: false });
    assert_eq!(ops.take_result(id), Taken::Result { completion: second, done: false, last: false });
    assert_eq!(ops.take_result(id), Taken::Pending);
    assert_eq!(ops.complete(third), CompletionAction::Wake);
    assert_eq!(ops.take_result(id), Taken::Result { completion: third, done: true, last: true });
    assert_eq!(ops.take_result(id), Taken::Finished);
    assert!(!ops.is_queued(id));
}

#[test]
fn multishot_done_with_results_left() {
    let mut ops = QueuedOperations::new(8);
    let id = ops.queue(true).unwrap();
    let first = event(id, 1, IORING_CQE_F_MORE);
    let second = event(id, 2, 0);
    ops.complete(first);
    ops.complete(second);
    assert_eq!(ops.take_result(id), Taken::Result { completion: first, done: true, last: false });
    assert!(ops.is_queued(id));
    assert_eq!(ops.take_result(id), Taken::Result { completion: second, done: true, last: true });
    assert!(!ops.is_queued(id));
}

#[test]
fn drop_then_complete() {
    let mut ops = QueuedOperations::new(8);
    let id = ops.queue(true).unwrap();
    ops.drop_operation(id);
    assert!(ops.is_queued(id));
    assert_eq!(ops.complete(event(id, 1, IORING_CQE_F_MORE)), CompletionAction::Wake);
    assert!(ops.is_queued(id));
    assert_eq!(ops.complete(event(id, 2, 0)), CompletionAction::Released);
    assert!(!ops.is_queued(id));
}

#[test]
fn drop_after_done_releases() {
    let mut ops = QueuedOperations::new(8);
    let id = ops.queue(false).unwrap();
    assert_eq!(ops.complete(event(id, 1, 0)), CompletionAction::Wake);
    ops.drop_operation(id);
    assert!(!ops.is_queued(id));
    // Dropping an unused id does nothing.
    ops.drop_operation(id);
    ops.drop_operation(1000);
    assert!(!ops.is_queued(id));
}

#[test]
fn foreign_events() {
    let mut ops = QueuedOperations::new(8);
    let id = ops.queue(false).unwrap();
    assert_eq!(ops.complete(event(WAKE_ID, 0, 0)), CompletionAction::WakeUp);
    assert_eq!(ops.complete(event(NO_COMPLETION_ID, -9, 0)), CompletionAction::NoCompletionFailed);
    assert_eq!(ops.complete(event(1000, 0, 0)), CompletionAction::Unknown);
    assert_eq!(ops.complete(event(id + 1, 0, 0)), CompletionAction::Gone);
    // The queued operation is untouched.
    assert_eq!(ops.take_result(id), Taken::Pending);
}

#[test]
fn poll_outcome_of_each_taken() {
    let ok = event(0, 7, IORING_CQE_F_MORE);
    assert_eq!(poll_outcome(Taken::Pending), PollOutcome::Pending);
    assert_eq!(poll_outcome(Taken::Finished), PollOutcome::Done);
    assert_eq!(
        poll_outcome(Taken::Result { completion: ok, done: false, last: false }),
        PollOutcome::Ready { res: 7, flags: IORING_CQE_F_MORE }
    );
    // A multishot operation that goes on returns its error as is.
    assert_eq!(
        poll_outcome(Taken::Result { completion: event(0, -EINVAL, 0), done: false, last: false }),
        PollOutcome::Failed(OpError::Os(EINVAL))
    );
    // Interrupted or canceled operations are restarted.
    assert_eq!(
        poll_outcome(Taken::Result { completion: event(0, -EINTR, 0), done: true, last: true }),
        PollOutcome::Restart
    );
    assert_eq!(
        poll_outcome(Taken::Result { completion: event(0, -ECANCELED, 0), done: true, last: true }),
        PollOutcome::Restart
    );
    // Other errors go through the fallback.
    assert_eq!(
        poll_outcome(Taken::Result { completion: event(0, -EINVAL, 0), done: true, last: true }),
        PollOutcome::Failed(OpError::Unsupported)
    );
    assert_eq!(
        poll_outcome(Taken::Result { completion: event(0, -2, 0), done: true, last: true }),
        PollOutcome::Failed(OpError::Os(2))
    );
}
