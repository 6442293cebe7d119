//! Cancelation of operations.

use vstd::prelude::*;

use crate::fd::{Descriptor, Kind};
use crate::sq::Submission;
use crate::sys::{
    IORING_ASYNC_CANCEL_ALL, IORING_ASYNC_CANCEL_FD, IORING_ASYNC_CANCEL_FD_FIXED,
    IORING_OP_ASYNC_CANCEL,
};

verus! {

/// Result of a cancelation attempt.
#[derive(Copy, Clone, Debug, PartialEq, Eq)]
pub enum CancelResult {
    /// Operation was cancelled asynchronously.
    Canceled,
    /// Operation was not started.
    NotStarted,
    /// Operation queue is currently full, can't cancel the operation.
    QueueFull,
}

/// State of a [`CancelOperation`].
#[derive(Copy, Clone, Debug, PartialEq, Eq)]
pub enum CancelOperationState {
    /// Cancellation is already done, or the operation was never started.
    Done,
    /// Cancellation of the operation with the id is in progress.
    InProgress(u64),
}

/// Cancelation of an operation, the [`Future`] behind `Cancel::cancel`.
///
/// [`Future`]: std::future::Future
#[derive(Copy, Clone, Debug, PartialEq, Eq)]
pub struct CancelOperation(pub CancelOperationState);

impl CancelOperation {
    /// Cancel the operation with `op_id`; an operation that never started
    /// has nothing to cancel.
    pub fn new(op_id: Option<u64>) -> (c: CancelOperation)
        ensures
            c.0 == (match op_id {
                Some(id) => CancelOperationState::InProgress(id),
                None => CancelOperationState::Done,
            }),
    {
        if let Some(op_id) = op_id {
            CancelOperation(CancelOperationState::InProgress(op_id))
        } else {
            CancelOperation(CancelOperationState::Done)
        }
    }

    /// Fill `submission` to cancel the operation, returns `false` if there is
    /// nothing to cancel (and leaves `submission` alone).
    pub fn fill_submission(&self, submission: &mut Submission) -> (submitted: bool)
        ensures
            submitted == (self.0 is InProgress),
            *final(submission) == (match self.0 {
                CancelOperationState::InProgress(id) => Submission {
                    opcode: IORING_OP_ASYNC_CANCEL,
                    addr: id,
                    ..*old(submission)
                },
                CancelOperationState::Done => *old(submission),
            }),
    {
        match self.0 {
            CancelOperationState::InProgress(id) => {
                submission.opcode = IORING_OP_ASYNC_CANCEL;
                submission.addr = id;
                true
            },
            CancelOperationState::Done => false,
        }
    }
}

/// The cancel flags to cancel all operations on a descriptor of `kind`.
pub open spec fn cancel_all_flags(kind: Kind) -> u32 {
    (match kind {
        Kind::Direct => IORING_ASYNC_CANCEL_FD_FIXED,
        Kind::File => 0u32,
    }) | IORING_ASYNC_CANCEL_ALL | IORING_ASYNC_CANCEL_FD
}

/// Attempt to cancel all in progress operations on a descriptor.
#[derive(Copy, Clone, Debug, PartialEq, Eq)]
pub struct CancelAll;

impl CancelAll {
    /// Fill `submission` to cancel all operations on `fd`.
    pub fn fill_submission(&self, fd: &Descriptor, submission: &mut Submission)
        ensures
            *final(submission) == (Submission {
                opcode: IORING_OP_ASYNC_CANCEL,
                fd: fd.spec_raw() & 0x7fff_ffff,
                op_flags: cancel_all_flags(if fd.spec_raw() < 0 {
                    Kind::Direct
                } else {
                    Kind::File
                }),
                ..*old(submission)
            }),
    {
        submission.opcode = IORING_OP_ASYNC_CANCEL;
        submission.fd = fd.fd();
        let cancel_flags = if let Kind::Direct = fd.kind() {
            IORING_ASYNC_CANCEL_FD_FIXED
        } else {
            0
        };
        submission.op_flags = cancel_flags | IORING_ASYNC_CANCEL_ALL | IORING_ASYNC_CANCEL_FD;
    }

    /// The number of operations canceled, from the result of the operation.
    pub fn map_ok(n: u32) -> (r: usize)
        ensures
            r == n,
    {
        n as usize
    }
}

} // verus!
