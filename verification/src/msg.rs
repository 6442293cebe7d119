//! Messages between rings: a message is posted as a completion event on the
//! receiving ring.

use vstd::prelude::*;

use crate::sq::Submission;
use crate::sys::{IORING_MSG_DATA, IORING_OP_MSG_RING};

verus! {

/// Fill `submission` to send `data` to the operation `op_id` of the ring with
/// file descriptor `ring_fd`: it arrives there as a completion event for
/// `op_id` with result `data`.
pub fn send(ring_fd: i32, op_id: usize, data: u32, submission: &mut Submission)
    ensures
        *final(submission) == (Submission {
            opcode: IORING_OP_MSG_RING,
            fd: ring_fd,
            addr: IORING_MSG_DATA as u64,
            off: op_id as u64,
            len: data,
            op_flags: 0,
            ..*old(submission)
        }),
{
    submission.opcode = IORING_OP_MSG_RING;
    submission.fd = ring_fd;
    submission.addr = IORING_MSG_DATA as u64;
    submission.off = op_id as u64;
    submission.len = data;
    submission.op_flags = 0;
}

} // verus!
