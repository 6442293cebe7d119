//! Submission queue entries.
//!
//! A [`Submission`] holds, as plain values, what the kernel reads from an
//! io_uring submission queue entry. Pointers are passed as their addresses.

use vstd::prelude::*;

use vstd::arithmetic::power2::pow2;
use vstd::bits::lemma_u32_low_bits_mask_is_mod;

use crate::cq::WAKE_ID;
use crate::sys::{
    IORING_ASYNC_CANCEL_FD, IORING_ENTER_SQ_WAKEUP, IORING_MSG_DATA, IORING_OP_ACCEPT, IORING_OP_ASYNC_CANCEL, IORING_OP_BIND, IORING_OP_CLOSE, IORING_OP_CONNECT, IORING_OP_FADVISE, IORING_OP_FALLOCATE, IORING_OP_FILES_UPDATE, IORING_OP_FIXED_FD_INSTALL, IORING_OP_FSYNC, IORING_OP_FTRUNCATE, IORING_OP_LISTEN, IORING_OP_MADVISE, IORING_OP_MKDIRAT, IORING_OP_MSG_RING, IORING_OP_NOP, IORING_OP_OPENAT, IORING_OP_POLL_ADD, IORING_OP_POLL_REMOVE, IORING_OP_READ, IORING_OP_READV, IORING_OP_READ_MULTISHOT, IORING_OP_RECV, IORING_OP_RECVMSG, IORING_OP_RENAMEAT, IORING_OP_SEND, IORING_OP_SENDMSG, IORING_OP_SENDMSG_ZC, IORING_OP_SEND_ZC, IORING_OP_SHUTDOWN, IORING_OP_SOCKET, IORING_OP_SPLICE, IORING_OP_STATX, IORING_OP_UNLINKAT, IORING_OP_URING_CMD, IORING_OP_WAITID, IORING_OP_WRITE, IORING_OP_WRITEV, IORING_POLL_ADD_MULTI, IORING_SQ_NEED_WAKEUP, IOSQE_ASYNC, IOSQE_BUFFER_SELECT, IOSQE_CQE_SKIP_SUCCESS, SOCKET_URING_OP_GETSOCKOPT, SOCKET_URING_OP_SETSOCKOPT,
};

verus! {

/// Submission queue entry.
#[derive(Clone, Copy, Debug, PartialEq, Eq)]
pub struct Submission {
    /// Operation code.
    pub opcode: u8,
    /// `IOSQE_*` flags.
    pub flags: u8,
    /// Priority, or operation specific flags for some operations.
    pub ioprio: u16,
    /// File descriptor the operation works on.
    pub fd: i32,
    /// Offset, or a second address.
    pub off: u64,
    /// Address of the buffer or path.
    pub addr: u64,
    /// Length of the buffer, or a mode.
    pub len: u32,
    /// Operation specific flags (`open_flags`, `fsync_flags`, ...).
    pub op_flags: u32,
    /// Data returned in the completion event.
    pub user_data: u64,
    /// Buffer group to select a buffer from.
    pub buf_group: u16,
    /// Index in the file table for direct descriptors; also the length of a
    /// socket option (`optlen`), or, in the low 16 bits, of an address
    /// (`addr_len`).
    pub file_index: u32,
    /// Third address, or the address of a socket option's value (`optval`).
    pub addr3: u64,
}

/// A submission as it is after a reset: all fields zero.
pub open spec fn empty_submission() -> Submission {
    Submission {
        opcode: 0,
        flags: 0,
        ioprio: 0,
        fd: 0,
        off: 0,
        addr: 0,
        len: 0,
        op_flags: 0,
        user_data: 0,
        buf_group: 0,
        file_index: 0,
        addr3: 0,
    }
}

impl Submission {
    /// Create a reset submission.
    pub fn new() -> (s: Submission)
        ensures
            s == empty_submission(),
    {
        Submission {
            opcode: 0,
            flags: 0,
            ioprio: 0,
            fd: 0,
            off: 0,
            addr: 0,
            len: 0,
            op_flags: 0,
            user_data: 0,
            buf_group: 0,
            file_index: 0,
            addr3: 0,
        }
    }

    /// Reset the submission.
    pub fn reset(&mut self)
        ensures
            *final(self) == empty_submission(),
    {
        *self = Submission::new();
    }

    /// Returns `true` if the submission is unchanged after a [`reset`].
    ///
    /// [`reset`]: Submission::reset
    pub fn is_unchanged(&self) -> (r: bool)
        ensures
            r == (self.opcode == IORING_OP_NOP),
    {
        self.opcode == IORING_OP_NOP
    }

    /// Don't attempt to do the operation non-blocking first, always execute it
    /// in an async manner.
    pub fn set_async(&mut self)
        ensures
            *final(self) == (Submission { flags: old(self).flags | IOSQE_ASYNC, ..*old(self) }),
    {
        self.flags = self.flags | IOSQE_ASYNC;
    }

    /// Don't return a completion event for this submission if it succeeds.
    pub fn no_success_event(&mut self)
        ensures
            *final(self) == (Submission {
                flags: old(self).flags | IOSQE_CQE_SKIP_SUCCESS,
                ..*old(self)
            }),
    {
        self.flags = self.flags | IOSQE_CQE_SKIP_SUCCESS;
    }

    /// Let the kernel select a buffer from the buffer group `group`.
    pub fn set_buffer_select(&mut self, group: u16)
        ensures
            *final(self) == (Submission {
                flags: old(self).flags | IOSQE_BUFFER_SELECT,
                buf_group: group,
                ..*old(self)
            }),
    {
        self.buf_group = group;
        self.flags = self.flags | IOSQE_BUFFER_SELECT;
    }
}

/// The submission queue is full.
#[derive(Copy, Clone, Debug, PartialEq, Eq)]
pub struct QueueFull;

/// True if `len` is a power of two that fits in 32 bits, as the lengths of
/// the kernel's rings are.
pub open spec fn is_ring_len(len: u32) -> bool {
    exists|k: nat| k < 32 && len == pow2(k)
}

/// Number of entries between positions `head` and `tail` of a ring, whose
/// positions count on, wrapping around at 2^32.
pub open spec fn queued(head: u32, tail: u32) -> int {
    if tail >= head {
        tail - head
    } else {
        tail + 0x1_0000_0000 - head
    }
}

/// Index in a ring of `len` entries of the entry at position `pos`.
pub fn ring_index(pos: u32, len: u32) -> (index: u32)
    requires
        is_ring_len(len),
    ensures
        index == pos % len,
        index < len,
{
    let ghost k = choose|k: nat| k < 32 && len == pow2(k);
    proof {
        lemma_u32_low_bits_mask_is_mod(pos, k);
        vstd::arithmetic::power2::lemma_pow2_pos(k);
    }
    pos & (len - 1)
}

/// Claim the next entry of a submission ring of `len` entries, of which the
/// kernel read up to position `head` and we wrote up to position `tail`.
///
/// Returns the index of the entry to fill and the new tail, or `QueueFull` if
/// all entries hold submissions the kernel didn't read yet.
pub fn claim_submission(head: u32, tail: u32, len: u32) -> (r: Result<(u32, u32), QueueFull>)
    requires
        is_ring_len(len),
    ensures
        match r {
            Ok((index, new_tail)) => {
                &&& queued(head, tail) < len
                &&& index == tail % len
                &&& new_tail == (if tail == u32::MAX { 0 } else { tail + 1 })
            },
            Err(_) => queued(head, tail) >= len,
        },
{
    let queued = tail.wrapping_sub(head);
    if queued >= len {
        return Err(QueueFull);
    }
    let index = ring_index(tail, len);
    let new_tail = tail.wrapping_add(1);
    Ok((index, new_tail))
}

/// Fill `submission` to cancel the operation with `user_data`; the
/// operation's canceled completion event is all that is needed, so the
/// cancellation itself gives no event when it succeeds.
pub fn fill_cancel_submission(user_data: u64, submission: &mut Submission)
    ensures
        *final(submission) == (Submission {
            opcode: IORING_OP_ASYNC_CANCEL,
            addr: user_data,
            flags: old(submission).flags | IOSQE_CQE_SKIP_SUCCESS,
            ..*old(submission)
        }),
{
    submission.opcode = IORING_OP_ASYNC_CANCEL;
    submission.addr = user_data;
    submission.no_success_event();
}

/// Queue to submit asynchronous operations to, as far as waking the ring is
/// concerned.
#[derive(Copy, Clone, Debug, PartialEq, Eq)]
pub struct SubmissionQueue {
    /// File descriptor of the ring.
    pub ring_fd: i32,
    /// A kernel thread polls for submissions (`IORING_SETUP_SQPOLL`).
    pub kernel_thread: bool,
}

/// The `io_uring_enter(2)` flags and number of submissions with which
/// [`SubmissionQueue::wake`] enters the kernel.
pub open spec fn wake_enter(
    kernel_thread: bool,
    kernel_flags: u32,
    head: u32,
    tail: u32,
) -> (u32, u32) {
    if kernel_thread {
        (
            if kernel_flags & IORING_SQ_NEED_WAKEUP != 0 {
                IORING_ENTER_SQ_WAKEUP
            } else {
                0
            },
            0,
        )
    } else {
        (0, queued(head, tail) as u32)
    }
}

impl SubmissionQueue {
    /// Fill `submission` to wake the thread polling the ring: a message to
    /// the ring itself, arriving as an event for [`WAKE_ID`], that gives no
    /// event of its own when it succeeds.
    pub fn fill_wake_submission(&self, submission: &mut Submission)
        ensures
            *final(submission) == (Submission {
                opcode: IORING_OP_MSG_RING,
                fd: self.ring_fd,
                addr: IORING_MSG_DATA as u64,
                off: WAKE_ID as u64,
                flags: old(submission).flags | IOSQE_CQE_SKIP_SUCCESS,
                ..*old(submission)
            }),
    {
        submission.opcode = IORING_OP_MSG_RING;
        submission.fd = self.ring_fd;
        submission.addr = IORING_MSG_DATA as u64;
        submission.off = WAKE_ID as u64;
        submission.no_success_event();
    }

    /// Wake the connected ring, interrupting a poll: returns the flags and
    /// the number of submissions to enter the kernel with, once the wake
    /// submission was added, with the submissions written up to `tail` of
    /// which the kernel read up to `head`; `None` if no thread is polling,
    /// then there is no one to wake.
    pub fn wake(&self, is_polling: bool, kernel_flags: u32, head: u32, tail: u32) -> (r: Option<
        (u32, u32),
    >)
        ensures
            r == (if is_polling {
                Some(wake_enter(self.kernel_thread, kernel_flags, head, tail))
            } else {
                None
            }),
    {
        if !is_polling {
            // If we're not polling we don't need to wake up.
            return None;
        }
        if self.kernel_thread {
            let flags = if kernel_flags & IORING_SQ_NEED_WAKEUP != 0 {
                IORING_ENTER_SQ_WAKEUP
            } else {
                0
            };
            // Kernel thread handles the submissions.
            Some((flags, 0))
        } else {
            Some((0, tail.wrapping_sub(head)))
        }
    }
}

/// A value in the description of a submission.
#[derive(Copy, Clone, Debug, PartialEq, Eq)]
pub enum FieldValue {
    /// A name, such as that of the operation.
    Name(&'static str),
    /// A signed number, such as a file descriptor.
    Signed(i64),
    /// An unsigned number, such as an address, length or flags.
    Unsigned(u64),
    /// A truth value.
    Bool(bool),
}

/// The fields that describe `s` after its operation code, for the
/// operation it holds.
pub open spec fn spec_operation_fields(s: Submission) -> Seq<(&'static str, FieldValue)> {
    if s.opcode == IORING_OP_NOP {
        seq![("opcode", FieldValue::Name("IORING_OP_NOP"))]
    } else if s.opcode == IORING_OP_FSYNC {
        seq![("opcode", FieldValue::Name("IORING_OP_FSYNC")), ("fd", FieldValue::Signed(s.fd as i64)), ("fsync_flags", FieldValue::Unsigned((s.op_flags) as u64))]
    } else if s.opcode == IORING_OP_READ {
        seq![("opcode", FieldValue::Name("IORING_OP_READ")), ("fd", FieldValue::Signed(s.fd as i64)), ("offset", FieldValue::Unsigned((s.off) as u64)), ("addr", FieldValue::Unsigned((s.addr) as u64)), ("len", FieldValue::Unsigned((s.len) as u64))]
    } else if s.opcode == IORING_OP_READV {
        seq![("opcode", FieldValue::Name("IORING_OP_READV")), ("fd", FieldValue::Signed(s.fd as i64)), ("offset", FieldValue::Unsigned((s.off) as u64)), ("addr", FieldValue::Unsigned((s.addr) as u64)), ("len", FieldValue::Unsigned((s.len) as u64))]
    } else if s.opcode == IORING_OP_READ_MULTISHOT {
        seq![("opcode", FieldValue::Name("IORING_OP_READ_MULTISHOT")), ("fd", FieldValue::Signed(s.fd as i64)), ("flags", FieldValue::Unsigned((s.flags) as u64)), ("buf_group", FieldValue::Unsigned((s.buf_group) as u64))]
    } else if s.opcode == IORING_OP_WRITE {
        seq![("opcode", FieldValue::Name("IORING_OP_WRITE")), ("fd", FieldValue::Signed(s.fd as i64)), ("offset", FieldValue::Unsigned((s.off) as u64)), ("addr", FieldValue::Unsigned((s.addr) as u64)), ("len", FieldValue::Unsigned((s.len) as u64))]
    } else if s.opcode == IORING_OP_WRITEV {
        seq![("opcode", FieldValue::Name("IORING_OP_WRITEV")), ("fd", FieldValue::Signed(s.fd as i64)), ("offset", FieldValue::Unsigned((s.off) as u64)), ("addr", FieldValue::Unsigned((s.addr) as u64)), ("len", FieldValue::Unsigned((s.len) as u64))]
    } else if s.opcode == IORING_OP_RENAMEAT {
        seq![("opcode", FieldValue::Name("IORING_OP_RENAMEAT")), ("old_fd", FieldValue::Signed((s.fd) as i64)), ("old_path", FieldValue::Unsigned((s.addr) as u64)), ("new_fd", FieldValue::Unsigned((s.len) as u64)), ("new_path", FieldValue::Unsigned((s.off) as u64)), ("rename_flags", FieldValue::Unsigned((s.op_flags) as u64))]
    } else if s.opcode == IORING_OP_SOCKET {
        seq![("opcode", FieldValue::Name("IORING_OP_SOCKET")), ("domain", FieldValue::Signed((s.fd) as i64)), ("type", FieldValue::Unsigned((s.off as u32) as u64)), ("file_index", FieldValue::Unsigned((s.file_index) as u64)), ("protocol", FieldValue::Unsigned((s.len) as u64)), ("rw_flags", FieldValue::Unsigned((s.op_flags) as u64))]
    } else if s.opcode == IORING_OP_CONNECT {
        seq![("opcode", FieldValue::Name("IORING_OP_CONNECT")), ("fd", FieldValue::Signed(s.fd as i64)), ("addr", FieldValue::Unsigned((s.addr) as u64)), ("addr_size", FieldValue::Unsigned((s.off) as u64))]
    } else if s.opcode == IORING_OP_SEND {
        seq![("opcode", FieldValue::Name("IORING_OP_SEND")), ("fd", FieldValue::Signed(s.fd as i64)), ("addr", FieldValue::Unsigned((s.addr) as u64)), ("len", FieldValue::Unsigned((s.len) as u64)), ("msg_flags", FieldValue::Unsigned((s.op_flags) as u64)), ("ioprio", FieldValue::Unsigned((s.ioprio) as u64)), ("buf_group", FieldValue::Unsigned((s.buf_group) as u64))]
    } else if s.opcode == IORING_OP_SEND_ZC {
        seq![("opcode", FieldValue::Name("IORING_OP_SEND_ZC")), ("fd", FieldValue::Signed(s.fd as i64)), ("addr", FieldValue::Unsigned((s.addr) as u64)), ("len", FieldValue::Unsigned((s.len) as u64)), ("msg_flags", FieldValue::Unsigned((s.op_flags) as u64)), ("ioprio", FieldValue::Unsigned((s.ioprio) as u64)), ("buf_group", FieldValue::Unsigned((s.buf_group) as u64))]
    } else if s.opcode == IORING_OP_SENDMSG {
        seq![("opcode", FieldValue::Name("IORING_OP_SENDMSG")), ("fd", FieldValue::Signed(s.fd as i64)), ("addr", FieldValue::Unsigned((s.addr) as u64)), ("len", FieldValue::Unsigned((s.len) as u64)), ("msg_flags", FieldValue::Unsigned((s.op_flags) as u64)), ("ioprio", FieldValue::Unsigned((s.ioprio) as u64)), ("buf_group", FieldValue::Unsigned((s.buf_group) as u64))]
    } else if s.opcode == IORING_OP_SENDMSG_ZC {
        seq![("opcode", FieldValue::Name("IORING_OP_SENDMSG_ZC")), ("fd", FieldValue::Signed(s.fd as i64)), ("addr", FieldValue::Unsigned((s.addr) as u64)), ("len", FieldValue::Unsigned((s.len) as u64)), ("msg_flags", FieldValue::Unsigned((s.op_flags) as u64)), ("ioprio", FieldValue::Unsigned((s.ioprio) as u64)), ("buf_group", FieldValue::Unsigned((s.buf_group) as u64))]
    } else if s.opcode == IORING_OP_RECV {
        seq![("opcode", FieldValue::Name("IORING_OP_RECV")), ("fd", FieldValue::Signed(s.fd as i64)), ("addr", FieldValue::Unsigned((s.addr) as u64)), ("len", FieldValue::Unsigned((s.len) as u64)), ("msg_flags", FieldValue::Unsigned((s.op_flags) as u64)), ("ioprio", FieldValue::Unsigned((s.ioprio) as u64)), ("buf_group", FieldValue::Unsigned((s.buf_group) as u64))]
    } else if s.opcode == IORING_OP_RECVMSG {
        seq![("opcode", FieldValue::Name("IORING_OP_RECVMSG")), ("fd", FieldValue::Signed(s.fd as i64)), ("addr", FieldValue::Unsigned((s.addr) as u64)), ("len", FieldValue::Unsigned((s.len) as u64)), ("msg_flags", FieldValue::Unsigned((s.op_flags) as u64)), ("ioprio", FieldValue::Unsigned((s.ioprio) as u64)), ("buf_group", FieldValue::Unsigned((s.buf_group) as u64))]
    } else if s.opcode == IORING_OP_SHUTDOWN {
        seq![("opcode", FieldValue::Name("IORING_OP_SHUTDOWN")), ("fd", FieldValue::Signed(s.fd as i64)), ("how", FieldValue::Unsigned((s.len) as u64))]
    } else if s.opcode == IORING_OP_BIND {
        seq![("opcode", FieldValue::Name("IORING_OP_BIND")), ("fd", FieldValue::Signed(s.fd as i64)), ("addr", FieldValue::Unsigned((s.addr) as u64)), ("addr_size", FieldValue::Unsigned((s.off) as u64))]
    } else if s.opcode == IORING_OP_LISTEN {
        seq![("opcode", FieldValue::Name("IORING_OP_LISTEN")), ("fd", FieldValue::Signed(s.fd as i64)), ("backlog", FieldValue::Unsigned((s.len) as u64))]
    } else if s.opcode == IORING_OP_ACCEPT {
        seq![("opcode", FieldValue::Name("IORING_OP_ACCEPT")), ("fd", FieldValue::Signed(s.fd as i64)), ("addr", FieldValue::Unsigned((s.addr) as u64)), ("addr_size", FieldValue::Unsigned((s.off) as u64)), ("accept_flags", FieldValue::Unsigned((s.op_flags) as u64)), ("file_index", FieldValue::Unsigned((s.file_index) as u64)), ("ioprio", FieldValue::Unsigned((s.ioprio) as u64))]
    } else if s.opcode == IORING_OP_URING_CMD {
        if (s.off as u32) == SOCKET_URING_OP_GETSOCKOPT {
            seq![("opcode", FieldValue::Name("IORING_OP_URING_CMD")), ("fd", FieldValue::Signed(s.fd as i64)), ("cmd_op", FieldValue::Name("SOCKET_URING_OP_GETSOCKOPT")), ("level", FieldValue::Unsigned((s.addr as u32) as u64)), ("name", FieldValue::Unsigned(((s.addr >> 32u64) as u32) as u64)), ("len", FieldValue::Unsigned((s.file_index) as u64))]
        } else if (s.off as u32) == SOCKET_URING_OP_SETSOCKOPT {
            seq![("opcode", FieldValue::Name("IORING_OP_URING_CMD")), ("fd", FieldValue::Signed(s.fd as i64)), ("cmd_op", FieldValue::Name("SOCKET_URING_OP_SETSOCKOPT")), ("level", FieldValue::Unsigned((s.addr as u32) as u64)), ("name", FieldValue::Unsigned(((s.addr >> 32u64) as u32) as u64)), ("len", FieldValue::Unsigned((s.file_index) as u64)), ("value", FieldValue::Unsigned((s.addr3) as u64))]
        } else {
            seq![("opcode", FieldValue::Name("IORING_OP_URING_CMD")), ("fd", FieldValue::Signed(s.fd as i64)), ("cmd_op", FieldValue::Unsigned((s.off as u32) as u64))]
        }
    } else if s.opcode == IORING_OP_ASYNC_CANCEL {
        if s.op_flags & IORING_ASYNC_CANCEL_FD != 0 {
            seq![("opcode", FieldValue::Name("IORING_OP_ASYNC_CANCEL")), ("fd", FieldValue::Signed(s.fd as i64)), ("cancel_flags", FieldValue::Unsigned((s.op_flags) as u64))]
        } else {
            seq![("opcode", FieldValue::Name("IORING_OP_ASYNC_CANCEL")), ("addr", FieldValue::Unsigned((s.addr) as u64))]
        }
    } else if s.opcode == IORING_OP_OPENAT {
        seq![("opcode", FieldValue::Name("IORING_OP_OPENAT")), ("dirfd", FieldValue::Signed((s.fd) as i64)), ("pathname", FieldValue::Unsigned((s.addr) as u64)), ("mode", FieldValue::Unsigned((s.len) as u64)), ("open_flags", FieldValue::Unsigned((s.op_flags) as u64)), ("file_index", FieldValue::Unsigned((s.file_index) as u64))]
    } else if s.opcode == IORING_OP_SPLICE {
        seq![("opcode", FieldValue::Name("IORING_OP_SPLICE")), ("fd_in", FieldValue::Signed((s.file_index as i32) as i64)), ("off_in", FieldValue::Unsigned((s.addr) as u64)), ("fd_out", FieldValue::Signed((s.fd) as i64)), ("off_out", FieldValue::Unsigned((s.off) as u64)), ("len", FieldValue::Unsigned((s.len) as u64)), ("splice_flags", FieldValue::Unsigned((s.op_flags) as u64))]
    } else if s.opcode == IORING_OP_CLOSE {
        seq![("opcode", FieldValue::Name("IORING_OP_CLOSE")), ("fd", FieldValue::Signed(s.fd as i64)), ("file_index", FieldValue::Unsigned((s.file_index) as u64))]
    } else if s.opcode == IORING_OP_FILES_UPDATE {
        seq![("opcode", FieldValue::Name("IORING_OP_FILES_UPDATE")), ("fd", FieldValue::Signed(s.fd as i64)), ("offset", FieldValue::Unsigned((s.off) as u64)), ("fds", FieldValue::Unsigned((s.addr) as u64)), ("len", FieldValue::Unsigned((s.len) as u64))]
    } else if s.opcode == IORING_OP_STATX {
        seq![("opcode", FieldValue::Name("IORING_OP_STATX")), ("fd", FieldValue::Signed(s.fd as i64)), ("pathname", FieldValue::Unsigned((s.addr) as u64)), ("statx_flags", FieldValue::Unsigned((s.op_flags) as u64)), ("mask", FieldValue::Unsigned((s.len) as u64)), ("statx", FieldValue::Unsigned((s.off) as u64))]
    } else if s.opcode == IORING_OP_FADVISE {
        seq![("opcode", FieldValue::Name("IORING_OP_FADVISE")), ("fd", FieldValue::Signed(s.fd as i64)), ("offset", FieldValue::Unsigned((s.off) as u64)), ("len", FieldValue::Unsigned((s.len) as u64)), ("advise", FieldValue::Unsigned((s.op_flags) as u64))]
    } else if s.opcode == IORING_OP_FALLOCATE {
        seq![("opcode", FieldValue::Name("IORING_OP_FALLOCATE")), ("fd", FieldValue::Signed(s.fd as i64)), ("offset", FieldValue::Unsigned((s.off) as u64)), ("len", FieldValue::Unsigned((s.addr) as u64)), ("mode", FieldValue::Unsigned((s.len) as u64))]
    } else if s.opcode == IORING_OP_FTRUNCATE {
        seq![("opcode", FieldValue::Name("IORING_OP_FTRUNCATE")), ("fd", FieldValue::Signed(s.fd as i64)), ("len", FieldValue::Unsigned((s.off) as u64))]
    } else if s.opcode == IORING_OP_UNLINKAT {
        seq![("opcode", FieldValue::Name("IORING_OP_UNLINKAT")), ("dirfd", FieldValue::Signed((s.fd) as i64)), ("path", FieldValue::Unsigned((s.addr) as u64)), ("unlink_flags", FieldValue::Unsigned((s.op_flags) as u64))]
    } else if s.opcode == IORING_OP_MKDIRAT {
        seq![("opcode", FieldValue::Name("IORING_OP_MKDIRAT")), ("dirfd", FieldValue::Signed((s.fd) as i64)), ("path", FieldValue::Unsigned((s.addr) as u64)), ("mode", FieldValue::Unsigned((s.len) as u64))]
    } else if s.opcode == IORING_OP_POLL_ADD {
        seq![("opcode", FieldValue::Name("IORING_OP_POLL_ADD")), ("fd", FieldValue::Signed(s.fd as i64)), ("poll_events", FieldValue::Unsigned((s.op_flags) as u64)), ("multishot", FieldValue::Bool(s.len == IORING_POLL_ADD_MULTI))]
    } else if s.opcode == IORING_OP_POLL_REMOVE {
        seq![("opcode", FieldValue::Name("IORING_OP_POLL_REMOVE")), ("target_user_data", FieldValue::Unsigned((s.addr) as u64))]
    } else if s.opcode == IORING_OP_MADVISE {
        seq![("opcode", FieldValue::Name("IORING_OP_MADVISE")), ("address", FieldValue::Unsigned((s.addr) as u64)), ("len", FieldValue::Unsigned((s.len) as u64)), ("advise", FieldValue::Unsigned((s.op_flags) as u64))]
    } else if s.opcode == IORING_OP_MSG_RING {
        seq![("opcode", FieldValue::Name("IORING_OP_MSG_RING")), ("ringfd", FieldValue::Signed((s.fd) as i64)), ("msg1", FieldValue::Unsigned((s.len) as u64)), ("msg2", FieldValue::Unsigned((s.off) as u64))]
    } else if s.opcode == IORING_OP_WAITID {
        seq![("opcode", FieldValue::Name("IORING_OP_WAITID")), ("id", FieldValue::Signed((s.fd) as i64)), ("id_type", FieldValue::Unsigned((s.len) as u64)), ("options", FieldValue::Unsigned((s.file_index) as u64)), ("info", FieldValue::Unsigned((s.off) as u64))]
    } else if s.opcode == IORING_OP_FIXED_FD_INSTALL {
        seq![("opcode", FieldValue::Name("IORING_OP_FIXED_FD_INSTALL")), ("fd", FieldValue::Signed(s.fd as i64)), ("install_fd_flags", FieldValue::Unsigned((s.op_flags) as u64))]
    } else {
        seq![("opcode", FieldValue::Unsigned((s.opcode) as u64)), ("ioprio", FieldValue::Unsigned((s.ioprio) as u64)), ("fd", FieldValue::Signed(s.fd as i64)), ("len", FieldValue::Unsigned((s.len) as u64))]
    }
}

/// The description of `s`: the fields of its operation, then its flags and
/// user data.
pub open spec fn spec_debug_fields(s: Submission) -> Seq<(&'static str, FieldValue)> {
    spec_operation_fields(s) + seq![
        ("flags", FieldValue::Unsigned(s.flags as u64)),
        ("user_data", FieldValue::Unsigned(s.user_data)),
    ]
}

impl Submission {
    /// The fields that describe the submission for the operation it holds.
    fn operation_fields(&self) -> (fields: Vec<(&'static str, FieldValue)>)
        ensures
            fields@ == spec_operation_fields(*self),
    {
        if self.opcode == IORING_OP_NOP {
            vec![("opcode", FieldValue::Name("IORING_OP_NOP"))]
        } else if self.opcode == IORING_OP_FSYNC {
            vec![("opcode", FieldValue::Name("IORING_OP_FSYNC")), ("fd", FieldValue::Signed(self.fd as i64)), ("fsync_flags", FieldValue::Unsigned((self.op_flags) as u64))]
        } else if self.opcode == IORING_OP_READ {
            vec![("opcode", FieldValue::Name("IORING_OP_READ")), ("fd", FieldValue::Signed(self.fd as i64)), ("offset", FieldValue::Unsigned((self.off) as u64)), ("addr", FieldValue::Unsigned((self.addr) as u64)), ("len", FieldValue::Unsigned((self.len) as u64))]
        } else if self.opcode == IORING_OP_READV {
            vec![("opcode", FieldValue::Name("IORING_OP_READV")), ("fd", FieldValue::Signed(self.fd as i64)), ("offset", FieldValue::Unsigned((self.off) as u64)), ("addr", FieldValue::Unsigned((self.addr) as u64)), ("len", FieldValue::Unsigned((self.len) as u64))]
        } else if self.opcode == IORING_OP_READ_MULTISHOT {
            vec![("opcode", FieldValue::Name("IORING_OP_READ_MULTISHOT")), ("fd", FieldValue::Signed(self.fd as i64)), ("flags", FieldValue::Unsigned((self.flags) as u64)), ("buf_group", FieldValue::Unsigned((self.buf_group) as u64))]
        } else if self.opcode == IORING_OP_WRITE {
            vec![("opcode", FieldValue::Name("IORING_OP_WRITE")), ("fd", FieldValue::Signed(self.fd as i64)), ("offset", FieldValue::Unsigned((self.off) as u64)), ("addr", FieldValue::Unsigned((self.addr) as u64)), ("len", FieldValue::Unsigned((self.len) as u64))]
        } else if self.opcode == IORING_OP_WRITEV {
            vec![("opcode", FieldValue::Name("IORING_OP_WRITEV")), ("fd", FieldValue::Signed(self.fd as i64)), ("offset", FieldValue::Unsigned((self.off) as u64)), ("addr", FieldValue::Unsigned((self.addr) as u64)), ("len", FieldValue::Unsigned((self.len) as u64))]
        } else if self.opcode == IORING_OP_RENAMEAT {
            vec![("opcode", FieldValue::Name("IORING_OP_RENAMEAT")), ("old_fd", FieldValue::Signed((self.fd) as i64)), ("old_path", FieldValue::Unsigned((self.addr) as u64)), ("new_fd", FieldValue::Unsigned((self.len) as u64)), ("new_path", FieldValue::Unsigned((self.off) as u64)), ("rename_flags", FieldValue::Unsigned((self.op_flags) as u64))]
        } else if self.opcode == IORING_OP_SOCKET {
            vec![("opcode", FieldValue::Name("IORING_OP_SOCKET")), ("domain", FieldValue::Signed((self.fd) as i64)), ("type", FieldValue::Unsigned((self.off as u32) as u64)), ("file_index", FieldValue::Unsigned((self.file_index) as u64)), ("protocol", FieldValue::Unsigned((self.len) as u64)), ("rw_flags", FieldValue::Unsigned((self.op_flags) as u64))]
        } else if self.opcode == IORING_OP_CONNECT {
            vec![("opcode", FieldValue::Name("IORING_OP_CONNECT")), ("fd", FieldValue::Signed(self.fd as i64)), ("addr", FieldValue::Unsigned((self.addr) as u64)), ("addr_size", FieldValue::Unsigned((self.off) as u64))]
        } else if self.opcode == IORING_OP_SEND {
            vec![("opcode", FieldValue::Name("IORING_OP_SEND")), ("fd", FieldValue::Signed(self.fd as i64)), ("addr", FieldValue::Unsigned((self.addr) as u64)), ("len", FieldValue::Unsigned((self.len) as u64)), ("msg_flags", FieldValue::Unsigned((self.op_flags) as u64)), ("ioprio", FieldValue::Unsigned((self.ioprio) as u64)), ("buf_group", FieldValue::Unsigned((self.buf_group) as u64))]
        } else if self.opcode == IORING_OP_SEND_ZC {
            vec![("opcode", FieldValue::Name("IORING_OP_SEND_ZC")), ("fd", FieldValue::Signed(self.fd as i64)), ("addr", FieldValue::Unsigned((self.addr) as u64)), ("len", FieldValue::Unsigned((self.len) as u64)), ("msg_flags", FieldValue::Unsigned((self.op_flags) as u64)), ("ioprio", FieldValue::Unsigned((self.ioprio) as u64)), ("buf_group", FieldValue::Unsigned((self.buf_group) as u64))]
        } else if self.opcode == IORING_OP_SENDMSG {
            vec![("opcode", FieldValue::Name("IORING_OP_SENDMSG")), ("fd", FieldValue::Signed(self.fd as i64)), ("addr", FieldValue::Unsigned((self.addr) as u64)), ("len", FieldValue::Unsigned((self.len) as u64)), ("msg_flags", FieldValue::Unsigned((self.op_flags) as u64)), ("ioprio", FieldValue::Unsigned((self.ioprio) as u64)), ("buf_group", FieldValue::Unsigned((self.buf_group) as u64))]
        } else if self.opcode == IORING_OP_SENDMSG_ZC {
            vec![("opcode", FieldValue::Name("IORING_OP_SENDMSG_ZC")), ("fd", FieldValue::Signed(self.fd as i64)), ("addr", FieldValue::Unsigned((self.addr) as u64)), ("len", FieldValue::Unsigned((self.len) as u64)), ("msg_flags", FieldValue::Unsigned((self.op_flags) as u64)), ("ioprio", FieldValue::Unsigned((self.ioprio) as u64)), ("buf_group", FieldValue::Unsigned((self.buf_group) as u64))]
        } else if self.opcode == IORING_OP_RECV {
            vec![("opcode", FieldValue::Name("IORING_OP_RECV")), ("fd", FieldValue::Signed(self.fd as i64)), ("addr", FieldValue::Unsigned((self.addr) as u64)), ("len", FieldValue::Unsigned((self.len) as u64)), ("msg_flags", FieldValue::Unsigned((self.op_flags) as u64)), ("ioprio", FieldValue::Unsigned((self.ioprio) as u64)), ("buf_group", FieldValue::Unsigned((self.buf_group) as u64))]
        } else if self.opcode == IORING_OP_RECVMSG {
            vec![("opcode", FieldValue::Name("IORING_OP_RECVMSG")), ("fd", FieldValue::Signed(self.fd as i64)), ("addr", FieldValue::Unsigned((self.addr) as u64)), ("len", FieldValue::Unsigned((self.len) as u64)), ("msg_flags", FieldValue::Unsigned((self.op_flags) as u64)), ("ioprio", FieldValue::Unsigned((self.ioprio) as u64)), ("buf_group", FieldValue::Unsigned((self.buf_group) as u64))]
        } else if self.opcode == IORING_OP_SHUTDOWN {
            vec![("opcode", FieldValue::Name("IORING_OP_SHUTDOWN")), ("fd", FieldValue::Signed(self.fd as i64)), ("how", FieldValue::Unsigned((self.len) as u64))]
        } else if self.opcode == IORING_OP_BIND {
            vec![("opcode", FieldValue::Name("IORING_OP_BIND")), ("fd", FieldValue::Signed(self.fd as i64)), ("addr", FieldValue::Unsigned((self.addr) as u64)), ("addr_size", FieldValue::Unsigned((self.off) as u64))]
        } else if self.opcode == IORING_OP_LISTEN {
            vec![("opcode", FieldValue::Name("IORING_OP_LISTEN")), ("fd", FieldValue::Signed(self.fd as i64)), ("backlog", FieldValue::Unsigned((self.len) as u64))]
        } else if self.opcode == IORING_OP_ACCEPT {
            vec![("opcode", FieldValue::Name("IORING_OP_ACCEPT")), ("fd", FieldValue::Signed(self.fd as i64)), ("addr", FieldValue::Unsigned((self.addr) as u64)), ("addr_size", FieldValue::Unsigned((self.off) as u64)), ("accept_flags", FieldValue::Unsigned((self.op_flags) as u64)), ("file_index", FieldValue::Unsigned((self.file_index) as u64)), ("ioprio", FieldValue::Unsigned((self.ioprio) as u64))]
        } else if self.opcode == IORING_OP_URING_CMD {
            if (self.off as u32) == SOCKET_URING_OP_GETSOCKOPT {
                vec![("opcode", FieldValue::Name("IORING_OP_URING_CMD")), ("fd", FieldValue::Signed(self.fd as i64)), ("cmd_op", FieldValue::Name("SOCKET_URING_OP_GETSOCKOPT")), ("level", FieldValue::Unsigned((self.addr as u32) as u64)), ("name", FieldValue::Unsigned(((self.addr >> 32u64) as u32) as u64)), ("len", FieldValue::Unsigned((self.file_index) as u64))]
            } else if (self.off as u32) == SOCKET_URING_OP_SETSOCKOPT {
                vec![("opcode", FieldValue::Name("IORING_OP_URING_CMD")), ("fd", FieldValue::Signed(self.fd as i64)), ("cmd_op", FieldValue::Name("SOCKET_URING_OP_SETSOCKOPT")), ("level", FieldValue::Unsigned((self.addr as u32) as u64)), ("name", FieldValue::Unsigned(((self.addr >> 32u64) as u32) as u64)), ("len", FieldValue::Unsigned((self.file_index) as u64)), ("value", FieldValue::Unsigned((self.addr3) as u64))]
            } else {
                vec![("opcode", FieldValue::Name("IORING_OP_URING_CMD")), ("fd", FieldValue::Signed(self.fd as i64)), ("cmd_op", FieldValue::Unsigned((self.off as u32) as u64))]
            }
        } else if self.opcode == IORING_OP_ASYNC_CANCEL {
            if self.op_flags & IORING_ASYNC_CANCEL_FD != 0 {
                vec![("opcode", FieldValue::Name("IORING_OP_ASYNC_CANCEL")), ("fd", FieldValue::Signed(self.fd as i64)), ("cancel_flags", FieldValue::Unsigned((self.op_flags) as u64))]
            } else {
                vec![("opcode", FieldValue::Name("IORING_OP_ASYNC_CANCEL")), ("addr", FieldValue::Unsigned((self.addr) as u64))]
            }
        } else if self.opcode == IORING_OP_OPENAT {
            vec![("opcode", FieldValue::Name("IORING_OP_OPENAT")), ("dirfd", FieldValue::Signed((self.fd) as i64)), ("pathname", FieldValue::Unsigned((self.addr) as u64)), ("mode", FieldValue::Unsigned((self.len) as u64)), ("open_flags", FieldValue::Unsigned((self.op_flags) as u64)), ("file_index", FieldValue::Unsigned((self.file_index) as u64))]
        } else if self.opcode == IORING_OP_SPLICE {
            vec![("opcode", FieldValue::Name("IORING_OP_SPLICE")), ("fd_in", FieldValue::Signed((self.file_index as i32) as i64)), ("off_in", FieldValue::Unsigned((self.addr) as u64)), ("fd_out", FieldValue::Signed((self.fd) as i64)), ("off_out", FieldValue::Unsigned((self.off) as u64)), ("len", FieldValue::Unsigned((self.len) as u64)), ("splice_flags", FieldValue::Unsigned((self.op_flags) as u64))]
        } else if self.opcode == IORING_OP_CLOSE {
            vec![("opcode", FieldValue::Name("IORING_OP_CLOSE")), ("fd", FieldValue::Signed(self.fd as i64)), ("file_index", FieldValue::Unsigned((self.file_index) as u64))]
        } else if self.opcode == IORING_OP_FILES_UPDATE {
            vec![("opcode", FieldValue::Name("IORING_OP_FILES_UPDATE")), ("fd", FieldValue::Signed(self.fd as i64)), ("offset", FieldValue::Unsigned((self.off) as u64)), ("fds", FieldValue::Unsigned((self.addr) as u64)), ("len", FieldValue::Unsigned((self.len) as u64))]
        } else if self.opcode == IORING_OP_STATX {
            vec![("opcode", FieldValue::Name("IORING_OP_STATX")), ("fd", FieldValue::Signed(self.fd as i64)), ("pathname", FieldValue::Unsigned((self.addr) as u64)), ("statx_flags", FieldValue::Unsigned((self.op_flags) as u64)), ("mask", FieldValue::Unsigned((self.len) as u64)), ("statx", FieldValue::Unsigned((self.off) as u64))]
        } else if self.opcode == IORING_OP_FADVISE {
            vec![("opcode", FieldValue::Name("IORING_OP_FADVISE")), ("fd", FieldValue::Signed(self.fd as i64)), ("offset", FieldValue::Unsigned((self.off) as u64)), ("len", FieldValue::Unsigned((self.len) as u64)), ("advise", FieldValue::Unsigned((self.op_flags) as u64))]
        } else if self.opcode == IORING_OP_FALLOCATE {
            vec![("opcode", FieldValue::Name("IORING_OP_FALLOCATE")), ("fd", FieldValue::Signed(self.fd as i64)), ("offset", FieldValue::Unsigned((self.off) as u64)), ("len", FieldValue::Unsigned((self.addr) as u64)), ("mode", FieldValue::Unsigned((self.len) as u64))]
        } else if self.opcode == IORING_OP_FTRUNCATE {
            vec![("opcode", FieldValue::Name("IORING_OP_FTRUNCATE")), ("fd", FieldValue::Signed(self.fd as i64)), ("len", FieldValue::Unsigned((self.off) as u64))]
        } else if self.opcode == IORING_OP_UNLINKAT {
            vec![("opcode", FieldValue::Name("IORING_OP_UNLINKAT")), ("dirfd", FieldValue::Signed((self.fd) as i64)), ("path", FieldValue::Unsigned((self.addr) as u64)), ("unlink_flags", FieldValue::Unsigned((self.op_flags) as u64))]
        } else if self.opcode == IORING_OP_MKDIRAT {
            vec![("opcode", FieldValue::Name("IORING_OP_MKDIRAT")), ("dirfd", FieldValue::Signed((self.fd) as i64)), ("path", FieldValue::Unsigned((self.addr) as u64)), ("mode", FieldValue::Unsigned((self.len) as u64))]
        } else if self.opcode == IORING_OP_POLL_ADD {
            vec![("opcode", FieldValue::Name("IORING_OP_POLL_ADD")), ("fd", FieldValue::Signed(self.fd as i64)), ("poll_events", FieldValue::Unsigned((self.op_flags) as u64)), ("multishot", FieldValue::Bool(self.len == IORING_POLL_ADD_MULTI))]
        } else if self.opcode == IORING_OP_POLL_REMOVE {
            vec![("opcode", FieldValue::Name("IORING_OP_POLL_REMOVE")), ("target_user_data", FieldValue::Unsigned((self.addr) as u64))]
        } else if self.opcode == IORING_OP_MADVISE {
            vec![("opcode", FieldValue::Name("IORING_OP_MADVISE")), ("address", FieldValue::Unsigned((self.addr) as u64)), ("len", FieldValue::Unsigned((self.len) as u64)), ("advise", FieldValue::Unsigned((self.op_flags) as u64))]
        } else if self.opcode == IORING_OP_MSG_RING {
            vec![("opcode", FieldValue::Name("IORING_OP_MSG_RING")), ("ringfd", FieldValue::Signed((self.fd) as i64)), ("msg1", FieldValue::Unsigned((self.len) as u64)), ("msg2", FieldValue::Unsigned((self.off) as u64))]
        } else if self.opcode == IORING_OP_WAITID {
            vec![("opcode", FieldValue::Name("IORING_OP_WAITID")), ("id", FieldValue::Signed((self.fd) as i64)), ("id_type", FieldValue::Unsigned((self.len) as u64)), ("options", FieldValue::Unsigned((self.file_index) as u64)), ("info", FieldValue::Unsigned((self.off) as u64))]
        } else if self.opcode == IORING_OP_FIXED_FD_INSTALL {
            vec![("opcode", FieldValue::Name("IORING_OP_FIXED_FD_INSTALL")), ("fd", FieldValue::Signed(self.fd as i64)), ("install_fd_flags", FieldValue::Unsigned((self.op_flags) as u64))]
        } else {
            vec![("opcode", FieldValue::Unsigned((self.opcode) as u64)), ("ioprio", FieldValue::Unsigned((self.ioprio) as u64)), ("fd", FieldValue::Signed(self.fd as i64)), ("len", FieldValue::Unsigned((self.len) as u64))]
        }
    }

    /// Describe the submission: the name of its operation and the fields
    /// that operation reads, under their names for that operation, then its
    /// flags and user data. An unknown operation is described by its code and
    /// the fields every operation has.
    pub fn debug_fields(&self) -> (fields: Vec<(&'static str, FieldValue)>)
        ensures
            fields@ == spec_debug_fields(*self),
    {
        let mut fields = self.operation_fields();
        fields.push(("flags", FieldValue::Unsigned(self.flags as u64)));
        fields.push(("user_data", FieldValue::Unsigned(self.user_data)));
        fields
    }
}

/// Waking the ring: with a kernel thread reading the submissions nothing is
/// submitted, and the thread is woken exactly when it asked for it; without
/// one, all submissions the kernel didn't read yet are submitted, with no
/// flags.
pub proof fn lemma_wake_enter(kernel_thread: bool, kernel_flags: u32, head: u32, tail: u32)
    ensures
        kernel_thread ==> wake_enter(kernel_thread, kernel_flags, head, tail).1 == 0,
        kernel_thread ==> (wake_enter(kernel_thread, kernel_flags, head, tail).0 & 2 != 0)
            == (kernel_flags & 1 != 0),
        kernel_thread ==> wake_enter(kernel_thread, kernel_flags, head, tail).0 & !2u32 == 0,
        !kernel_thread ==> wake_enter(kernel_thread, kernel_flags, head, tail) == (
            0u32,
            (if head <= tail { tail - head } else { tail + 0x1_0000_0000 - head }) as u32,
        ),
{
    assert(2u32 & 2u32 != 0 && 2u32 & !2u32 == 0 && 0u32 & 2u32 == 0 && 0u32 & !2u32 == 0)
        by (bit_vector);
}

} // verus!
