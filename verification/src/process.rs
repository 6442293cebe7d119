//! Process operations: waiting on processes and receiving signals.

use vstd::prelude::*;

use crate::fd::Descriptor;
use crate::io::NO_OFFSET;
use crate::sq::Submission;
use crate::sys::{
    IORING_OP_READ, IORING_OP_WAITID, IOSQE_ASYNC, P_ALL, P_PGID, P_PID, SIGNALFD_SIGINFO_SIZE,
};

verus! {

/// What to wait on.
#[derive(Copy, Clone, Debug, PartialEq, Eq)]
pub enum WaitOn {
    /// The child process with the process id.
    Process(u32),
    /// Any child process in the process group.
    Group(u32),
    /// Any child process.
    All,
}

/// Options of a wait (`W*` flags of `waitid(2)`).
#[derive(Copy, Clone, Debug, PartialEq, Eq)]
pub struct WaitOption(pub u32);

/// The id type and id `waitid(2)` takes for `wait`; the id of `All` is
/// ignored.
pub open spec fn wait_id(wait: WaitOn) -> (u32, u32) {
    match wait {
        WaitOn::Process(pid) => (P_PID, pid),
        WaitOn::Group(pid) => (P_PGID, pid),
        WaitOn::All => (P_ALL, 0),
    }
}

/// Waits for a change of state of a child process, `waitid(2)`.
#[derive(Copy, Clone, Debug, PartialEq, Eq)]
pub struct WaitIdOp {
    pub wait: WaitOn,
    pub options: WaitOption,
}

impl WaitIdOp {
    /// Fill `submission` to wait, storing the information in the
    /// `siginfo_t` at `info_addr`.
    pub fn fill_submission(&self, info_addr: u64, submission: &mut Submission)
        ensures
            *final(submission) == (Submission {
                opcode: IORING_OP_WAITID,
                fd: wait_id(self.wait).1 as i32,
                off: info_addr,
                len: wait_id(self.wait).0,
                file_index: self.options.0,
                ..*old(submission)
            }),
    {
        let (id_type, pid) = match self.wait {
            WaitOn::Process(pid) => (P_PID, pid),
            WaitOn::Group(pid) => (P_PGID, pid),
            // The id is ignored.
            WaitOn::All => (P_ALL, 0),
        };
        submission.opcode = IORING_OP_WAITID;
        submission.fd = #[verifier::truncate] (pid as i32);
        submission.off = info_addr;
        submission.len = id_type;
        submission.file_index = self.options.0;
    }
}

/// Reads a signal from a signal file descriptor.
#[derive(Copy, Clone, Debug, PartialEq, Eq)]
pub struct ReceiveSignalOp;

impl ReceiveSignalOp {
    /// Fill `submission` to read the next signal of `fd` into the
    /// `signalfd_siginfo` at `info_addr`.
    pub fn fill_submission(&self, fd: &Descriptor, info_addr: u64, submission: &mut Submission)
        ensures
            *final(submission) == (Submission {
                opcode: IORING_OP_READ,
                fd: fd.spec_raw() & 0x7fff_ffff,
                off: NO_OFFSET,
                addr: info_addr,
                len: SIGNALFD_SIGINFO_SIZE,
                flags: old(submission).flags | IOSQE_ASYNC,
                ..*old(submission)
            }),
    {
        submission.opcode = IORING_OP_READ;
        submission.fd = fd.fd();
        submission.off = NO_OFFSET;
        submission.addr = info_addr;
        submission.len = SIGNALFD_SIGINFO_SIZE;
        submission.set_async();
    }
}

} // verus!
