//! Memory operations.

use vstd::prelude::*;

use crate::sq::Submission;
use crate::sys::{
    IORING_OP_MADVISE, MADV_COLD, MADV_COLLAPSE, MADV_DODUMP, MADV_DOFORK, MADV_DONTDUMP, MADV_DONTFORK, MADV_DONTNEED, MADV_FREE, MADV_HUGEPAGE, MADV_HWPOISON, MADV_KEEPONFORK, MADV_MERGEABLE, MADV_NOHUGEPAGE, MADV_NORMAL, MADV_PAGEOUT, MADV_POPULATE_READ, MADV_POPULATE_WRITE, MADV_RANDOM, MADV_REMOVE, MADV_SEQUENTIAL, MADV_SOFT_OFFLINE, MADV_UNMERGEABLE, MADV_WILLNEED, MADV_WIPEONFORK,
};

verus! {

/// Advise about memory access, see [`advise`].
#[derive(Copy, Clone, Debug, PartialEq, Eq)]
pub struct AdviseFlag(pub u32);

impl AdviseFlag {
    /// No special treatment.
    #[allow(non_snake_case)]
    pub fn NORMAL() -> (r: AdviseFlag)
        ensures
            r.0 == MADV_NORMAL,
    {
        AdviseFlag(MADV_NORMAL)
    }

    /// Expect page references in random order.
    #[allow(non_snake_case)]
    pub fn RANDOM() -> (r: AdviseFlag)
        ensures
            r.0 == MADV_RANDOM,
    {
        AdviseFlag(MADV_RANDOM)
    }

    /// Expect page references in sequential order.
    #[allow(non_snake_case)]
    pub fn SEQUENTIAL() -> (r: AdviseFlag)
        ensures
            r.0 == MADV_SEQUENTIAL,
    {
        AdviseFlag(MADV_SEQUENTIAL)
    }

    /// Expect access in the near future.
    #[allow(non_snake_case)]
    pub fn WILL_NEED() -> (r: AdviseFlag)
        ensures
            r.0 == MADV_WILLNEED,
    {
        AdviseFlag(MADV_WILLNEED)
    }

    /// Do not expect access in the near future.
    #[allow(non_snake_case)]
    pub fn DONT_NEED() -> (r: AdviseFlag)
        ensures
            r.0 == MADV_DONTNEED,
    {
        AdviseFlag(MADV_DONTNEED)
    }

    /// Free up a given range of pages and its associated backing store.
    #[allow(non_snake_case)]
    pub fn REMOVE() -> (r: AdviseFlag)
        ensures
            r.0 == MADV_REMOVE,
    {
        AdviseFlag(MADV_REMOVE)
    }

    /// Do not make the pages in this range available to the child after a `fork(2)`.
    #[allow(non_snake_case)]
    pub fn DONT_FORK() -> (r: AdviseFlag)
        ensures
            r.0 == MADV_DONTFORK,
    {
        AdviseFlag(MADV_DONTFORK)
    }

    /// Undo the effect of `DONT_FORK`.
    #[allow(non_snake_case)]
    pub fn DO_FORK() -> (r: AdviseFlag)
        ensures
            r.0 == MADV_DOFORK,
    {
        AdviseFlag(MADV_DOFORK)
    }

    /// Poison the pages and handle subsequent references to those pages like a hardware memory corruption.
    #[allow(non_snake_case)]
    pub fn HW_POISON() -> (r: AdviseFlag)
        ensures
            r.0 == MADV_HWPOISON,
    {
        AdviseFlag(MADV_HWPOISON)
    }

    /// Enable Kernel Samepage Merging (KSM) for the pages.
    #[allow(non_snake_case)]
    pub fn MERGEABLE() -> (r: AdviseFlag)
        ensures
            r.0 == MADV_MERGEABLE,
    {
        AdviseFlag(MADV_MERGEABLE)
    }

    /// Undo the effect of an earlier `MERGEABLE` operation.
    #[allow(non_snake_case)]
    pub fn UNMERGEABLE() -> (r: AdviseFlag)
        ensures
            r.0 == MADV_UNMERGEABLE,
    {
        AdviseFlag(MADV_UNMERGEABLE)
    }

    /// Soft offline the pages in the range.
    #[allow(non_snake_case)]
    pub fn SOFT_OFFLINE() -> (r: AdviseFlag)
        ensures
            r.0 == MADV_SOFT_OFFLINE,
    {
        AdviseFlag(MADV_SOFT_OFFLINE)
    }

    /// Enable Transparent Huge Pages (THP) for pages in the range.
    #[allow(non_snake_case)]
    pub fn HUGE_PAGE() -> (r: AdviseFlag)
        ensures
            r.0 == MADV_HUGEPAGE,
    {
        AdviseFlag(MADV_HUGEPAGE)
    }

    /// Ensures that memory in the address range will not be backed by transparent hugepages.
    #[allow(non_snake_case)]
    pub fn NO_HUGE_PAGE() -> (r: AdviseFlag)
        ensures
            r.0 == MADV_NOHUGEPAGE,
    {
        AdviseFlag(MADV_NOHUGEPAGE)
    }

    /// Perform a best-effort collapse of the native pages mapped by the memory range into Transparent Huge Pages (THPs).
    #[allow(non_snake_case)]
    pub fn COLLAPSE() -> (r: AdviseFlag)
        ensures
            r.0 == MADV_COLLAPSE,
    {
        AdviseFlag(MADV_COLLAPSE)
    }

    /// Exclude from a core dump those pages in the range.
    #[allow(non_snake_case)]
    pub fn DONT_DUMP() -> (r: AdviseFlag)
        ensures
            r.0 == MADV_DONTDUMP,
    {
        AdviseFlag(MADV_DONTDUMP)
    }

    /// Undo the effect of an earlier `DONT_DUMP`.
    #[allow(non_snake_case)]
    pub fn DO_DUMP() -> (r: AdviseFlag)
        ensures
            r.0 == MADV_DODUMP,
    {
        AdviseFlag(MADV_DODUMP)
    }

    /// The application no longer requires the pages in the range.
    #[allow(non_snake_case)]
    pub fn FREE() -> (r: AdviseFlag)
        ensures
            r.0 == MADV_FREE,
    {
        AdviseFlag(MADV_FREE)
    }

    /// Present the child process with zero-filled memory in this range after a `fork(2)`.
    #[allow(non_snake_case)]
    pub fn WIPE_ON_FORK() -> (r: AdviseFlag)
        ensures
            r.0 == MADV_WIPEONFORK,
    {
        AdviseFlag(MADV_WIPEONFORK)
    }

    /// Undo the effect of an earlier `WIPE_ON_FORK`.
    #[allow(non_snake_case)]
    pub fn KEEP_ON_FORK() -> (r: AdviseFlag)
        ensures
            r.0 == MADV_KEEPONFORK,
    {
        AdviseFlag(MADV_KEEPONFORK)
    }

    /// Deactivate a given range of pages.
    #[allow(non_snake_case)]
    pub fn COLD() -> (r: AdviseFlag)
        ensures
            r.0 == MADV_COLD,
    {
        AdviseFlag(MADV_COLD)
    }

    /// Reclaim a given range of pages.
    #[allow(non_snake_case)]
    pub fn PAGE_OUT() -> (r: AdviseFlag)
        ensures
            r.0 == MADV_PAGEOUT,
    {
        AdviseFlag(MADV_PAGEOUT)
    }

    /// Populate (prefault) page tables readable, faulting in all pages.
    #[allow(non_snake_case)]
    pub fn POPULATE_READ() -> (r: AdviseFlag)
        ensures
            r.0 == MADV_POPULATE_READ,
    {
        AdviseFlag(MADV_POPULATE_READ)
    }

    /// Populate (prefault) page tables writable, faulting in all pages.
    #[allow(non_snake_case)]
    pub fn POPULATE_WRITE() -> (r: AdviseFlag)
        ensures
            r.0 == MADV_POPULATE_WRITE,
    {
        AdviseFlag(MADV_POPULATE_WRITE)
    }
}

/// Arguments of a `madvise(2)` operation.
#[derive(Copy, Clone, Debug, PartialEq, Eq)]
pub struct Advise {
    /// Start of the address range.
    pub address: u64,
    /// Length of the address range in bytes.
    pub length: u32,
    /// The advice.
    pub advice: AdviseFlag,
}

/// Give advice about use of memory.
///
/// Give advice or directions to the kernel about the address range beginning at
/// address `address` and with size `length` bytes. In most cases, the goal of
/// such advice is to improve system or application performance.
pub fn advise(address: u64, length: u32, advice: AdviseFlag) -> (op: Advise)
    ensures
        op == (Advise { address, length, advice }),
{
    Advise { address, length, advice }
}

impl Advise {
    /// Fill `submission` to give the advice.
    pub fn fill_submission(&self, submission: &mut Submission)
        ensures
            *final(submission) == (Submission {
                opcode: IORING_OP_MADVISE,
                fd: -1i32,
                addr: self.address,
                len: self.length,
                op_flags: self.advice.0,
                ..*old(submission)
            }),
    {
        submission.opcode = IORING_OP_MADVISE;
        submission.fd = -1;
        submission.addr = self.address;
        submission.len = self.length;
        submission.op_flags = self.advice.0;
    }
}

} // verus!
