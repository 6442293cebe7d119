//! Polling the ring itself: a multishot poll on the ring's file descriptor
//! reports when completions are ready, so the ring can be driven from another
//! event loop.

use vstd::prelude::*;

use crate::sq::Submission;
use crate::sys::{
    EPOLLERR, EPOLLET, EPOLLEXCLUSIVE, EPOLLHUP, EPOLLIN, IORING_OP_POLL_ADD, IORING_POLL_ADD_MULTI,
};

verus! {

/// The events polled for: readable, hang up and error, edge triggered and
/// waking one waiter.
pub open spec fn pollable_events() -> u32 {
    (EPOLLIN | EPOLLHUP | EPOLLERR | EPOLLET | EPOLLEXCLUSIVE) as u32
}

/// Polls the ring's file descriptor, one completion event per readiness.
#[derive(Copy, Clone, Debug, PartialEq, Eq)]
pub struct PollableOp;

impl PollableOp {
    /// Fill `submission` to poll the ring with file descriptor `ring_fd`.
    pub fn fill_submission(&self, ring_fd: i32, submission: &mut Submission)
        ensures
            *final(submission) == (Submission {
                opcode: IORING_OP_POLL_ADD,
                fd: ring_fd,
                op_flags: pollable_events(),
                len: IORING_POLL_ADD_MULTI,
                ..*old(submission)
            }),
    {
        submission.opcode = IORING_OP_POLL_ADD;
        submission.fd = ring_fd;
        let events: i32 = EPOLLIN | EPOLLHUP | EPOLLERR | EPOLLET | EPOLLEXCLUSIVE;
        submission.op_flags = events as u32;
        submission.len = IORING_POLL_ADD_MULTI;
    }
}

} // verus!
