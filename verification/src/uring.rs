//! Setting up and entering an io_uring: the sizes of the shared rings, the
//! arguments of `io_uring_enter(2)` and the waking of futures waiting for a
//! submission slot.

use vstd::prelude::*;

use crate::sq::{is_ring_len, queued, ring_index};
use crate::sys::{
    EINTR, ETIME, IORING_ENTER_EXT_ARG, IORING_ENTER_GETEVENTS, IORING_ENTER_SQ_WAKEUP,
    IORING_SETUP_SINGLE_ISSUER, IORING_SETUP_SQPOLL, IORING_SQ_NEED_WAKEUP,
};

verus! {

/// Size of a submission queue entry.
pub const SUBMISSION_SIZE: usize = 64;

/// Size of a completion queue entry.
pub const COMPLETION_SIZE: u32 = 16;

/// Parameters the kernel returns from `io_uring_setup(2)` that the setup
/// reads.
#[derive(Copy, Clone, Debug, PartialEq, Eq)]
pub struct Parameters {
    /// Number of submission queue entries.
    pub sq_entries: u32,
    /// Number of completion queue entries.
    pub cq_entries: u32,
    /// `IORING_SETUP_*` flags.
    pub flags: u32,
    /// Offset of the array of indices in the submission ring.
    pub sq_off_array: u32,
    /// Offset of the entries in the completion ring.
    pub cq_off_cqes: u32,
}

/// Sizes of the memory shared with the kernel and the features in use.
#[derive(Copy, Clone, Debug, PartialEq, Eq)]
pub struct Layout {
    /// Length of the submission ring mapping.
    pub submission_ring_len: u32,
    /// Length of the submission entries mapping.
    pub submissions_len: usize,
    /// Length of the completion ring mapping.
    pub completion_ring_len: u32,
    /// A kernel thread polls for submissions (`IORING_SETUP_SQPOLL`).
    pub kernel_thread: bool,
    /// Only a single thread submits (`IORING_SETUP_SINGLE_ISSUER`).
    pub single_issuer: bool,
}

impl Parameters {
    /// The layout of the rings these parameters describe.
    pub fn layout(&self) -> (l: Layout)
        requires
            self.sq_off_array + self.sq_entries * 4 <= u32::MAX,
            self.cq_off_cqes + self.cq_entries * 16 <= u32::MAX,
            self.sq_entries * 64 <= usize::MAX,
        ensures
            l == (Layout {
                submission_ring_len: (self.sq_off_array + self.sq_entries * 4) as u32,
                submissions_len: (self.sq_entries * 64) as usize,
                completion_ring_len: (self.cq_off_cqes + self.cq_entries * 16) as u32,
                kernel_thread: self.flags & IORING_SETUP_SQPOLL != 0,
                single_issuer: self.flags & IORING_SETUP_SINGLE_ISSUER != 0,
            }),
    {
        Layout {
            submission_ring_len: self.sq_off_array + self.sq_entries * 4,
            submissions_len: self.sq_entries as usize * SUBMISSION_SIZE,
            completion_ring_len: self.cq_off_cqes + self.cq_entries * COMPLETION_SIZE,
            kernel_thread: (self.flags & IORING_SETUP_SQPOLL) != 0,
            single_issuer: (self.flags & IORING_SETUP_SINGLE_ISSUER) != 0,
        }
    }
}

/// Number of submissions written up to `tail` that the kernel didn't read up
/// to `head`.
pub fn unsubmitted_submissions(head: u32, tail: u32) -> (n: u32)
    ensures
        n == queued(head, tail),
{
    tail.wrapping_sub(head)
}

/// Number of submissions to pass to `io_uring_enter(2)`: none when a kernel
/// thread reads them.
pub fn submissions_to_enter(kernel_thread: bool, head: u32, tail: u32) -> (n: u32)
    ensures
        n == (if kernel_thread { 0 } else { queued(head, tail) }),
{
    if kernel_thread {
        0  // Kernel thread handles the submissions.
    } else {
        unsubmitted_submissions(head, tail)
    }
}

/// Flags of `io_uring_enter(2)`: `flags`, plus waking up the kernel thread if
/// it asked for it in `kernel_flags`, plus the passing of the extended
/// arguments.
pub fn enter_flags(kernel_thread: bool, kernel_flags: u32, flags: u32) -> (f: u32)
    ensures
        f == (if kernel_thread && kernel_flags & IORING_SQ_NEED_WAKEUP != 0 {
            flags | IORING_ENTER_SQ_WAKEUP
        } else {
            flags
        }) | IORING_ENTER_EXT_ARG,
{
    let mut flags = flags;
    if kernel_thread && kernel_flags & IORING_SQ_NEED_WAKEUP != 0 {
        // Wake up the kernel thread.
        flags = flags | IORING_ENTER_SQ_WAKEUP;
    }
    flags | IORING_ENTER_EXT_ARG
}

/// Flags of `io_uring_enter(2)` when waiting for completions.
pub fn wait_flags() -> (f: u32)
    ensures
        f == IORING_ENTER_GETEVENTS | IORING_ENTER_EXT_ARG,
{
    IORING_ENTER_GETEVENTS | IORING_ENTER_EXT_ARG
}

/// The `timespec` of a timeout of `secs` seconds and `nanos` nanoseconds:
/// seconds beyond `i64::MAX` are clamped.
pub fn timeout_timespec(secs: u64, nanos: u32) -> (ts: (i64, i64))
    ensures
        ts == ((if secs <= i64::MAX { secs as i64 } else { i64::MAX }), nanos as i64),
{
    let tv_sec = if secs <= i64::MAX as u64 {
        secs as i64
    } else {
        i64::MAX
    };
    (tv_sec, nanos as i64)
}

/// Outcome of `io_uring_enter(2)`: hitting the timeout or being interrupted
/// is no error, it counts as no completions.
pub fn enter_outcome(result: Result<u32, i32>) -> (r: Result<u32, i32>)
    ensures
        r == (match result {
            Ok(n) => Ok(n),
            Err(errno) => if errno == ETIME || errno == EINTR {
                Ok(0)
            } else {
                Err(errno)
            },
        }),
{
    match result {
        Ok(n) => Ok(n),
        // Hit a timeout or got interrupted, we can ignore it.
        Err(errno) => if errno == ETIME || errno == EINTR {
            Ok(0)
        } else {
            Err(errno)
        },
    }
}

/// Indices of the completions the kernel added to a completion ring of `len`
/// entries: from position `head` up to `tail`, positions that count on and
/// wrap around at 2^32.
pub fn pending_completions(head: u32, tail: u32, len: u32) -> (indices: Vec<u32>)
    requires
        is_ring_len(len),
    ensures
        indices@.len() == queued(head, tail),
        forall|i: int|
            0 <= i < indices@.len() ==> #[trigger] indices@[i] == ((head + i) % 0x1_0000_0000) % (
            len as int),
{
    let n = tail.wrapping_sub(head);
    let mut indices: Vec<u32> = Vec::new();
    let mut pos = head;
    let mut count: u32 = 0;
    while count < n
        invariant
            count <= n,
            n == queued(head, tail),
            is_ring_len(len),
            pos == (head + count) % 0x1_0000_0000,
            indices@.len() == count,
            forall|i: int|
                0 <= i < indices@.len() ==> #[trigger] indices@[i] == ((head + i) % 0x1_0000_0000)
                    % (len as int),
        decreases n - count,
    {
        indices.push(ring_index(pos, len));
        pos = pos.wrapping_add(1);
        count += 1;
    }
    indices
}

/// Which of the futures waiting for a submission slot to wake, when the
/// futures that started waiting meanwhile get the slots that are left.
#[derive(Copy, Clone, Debug, PartialEq, Eq)]
pub struct SlotWakePlan {
    /// Number of the first waiting futures to wake.
    pub wake_waiting: usize,
    /// Number of the first added futures to wake; the others keep waiting.
    pub wake_added: usize,
}

/// Plan the waking of `waiting` futures waiting for one of `available`
/// submission slots, and of `added` futures that started waiting while the
/// first ones were woken: every future that has a slot is woken, the others
/// are added back to the waiting list.
pub fn plan_slot_wakeups(available: usize, waiting: usize, added: usize) -> (p: SlotWakePlan)
    ensures
        p.wake_waiting == (if available < waiting { available } else { waiting }),
        p.wake_added == (if available - p.wake_waiting < added {
            available - p.wake_waiting
        } else {
            added as int
        }),
{
    let awoken = if available < waiting { available } else { waiting };
    let left = available - awoken;
    let awoken_added = if left < added { left } else { added };
    SlotWakePlan { wake_waiting: awoken, wake_added: awoken_added }
}

/// Never more futures are woken than there are slots.
pub proof fn lemma_wakeups_fit(available: usize, waiting: usize, added: usize)
    ensures
        ({
            let awoken = if available < waiting { available as int } else { waiting as int };
            let awoken_added = if available - awoken < added { available - awoken } else { added as int };
            awoken + awoken_added <= available
        }),
{
}

} // verus!
