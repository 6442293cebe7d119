//! Descriptors: regular file descriptors and io_uring direct descriptors.

use vstd::prelude::*;

use crate::sq::Submission;
use crate::sys::{IORING_FILE_INDEX_ALLOC, IOSQE_FIXED_FILE, O_CLOEXEC};

verus! {

/// Kind of descriptor.
#[derive(Copy, Clone, Debug, Eq, PartialEq)]
pub enum Kind {
    /// Regular Unix file descriptor.
    File,
    /// Direct descriptor are io_uring private file descriptor.
    ///
    /// They avoid some of the overhead associated with thread shared file
    /// tables and can be used in any io_uring request that takes a file
    /// descriptor. However they cannot be used outside of io_uring.
    Direct,
}

impl Kind {
    /// The value [`Kind::cloexec_flag`] returns.
    pub open spec fn spec_cloexec_flag(self) -> i32 {
        match self {
            Kind::File => O_CLOEXEC,
            Kind::Direct => 0,
        }
    }

    /// The flag to pass when creating a descriptor of this kind, so that it
    /// is closed on `exec(2)`.
    ///
    /// Direct descriptor always have (the equivalent of) `O_CLOEXEC` set.
    #[verifier::when_used_as_spec(spec_cloexec_flag)]
    pub fn cloexec_flag(self) -> (flag: i32)
        ensures
            flag == self.spec_cloexec_flag(),
    {
        match self {
            Kind::File => O_CLOEXEC,
            Kind::Direct => 0,
        }
    }

    /// Set the flags in `submission` for an operation creating a descriptor
    /// of this kind: direct descriptors let the kernel allocate a slot.
    pub fn create_flags(self, submission: &mut Submission)
        ensures
            *final(submission) == (match self {
                Kind::File => *old(submission),
                Kind::Direct => Submission { file_index: IORING_FILE_INDEX_ALLOC, ..*old(submission) },
            }),
    {
        if let Kind::Direct = self {
            submission.file_index = IORING_FILE_INDEX_ALLOC;
        }
    }

    /// Set the flags in `submission` for an operation using a descriptor of
    /// this kind: direct descriptors are marked as fixed files.
    pub fn use_flags(&self, submission: &mut Submission)
        ensures
            *final(submission) == (match *self {
                Kind::File => *old(submission),
                Kind::Direct => Submission {
                    flags: old(submission).flags | IOSQE_FIXED_FILE,
                    ..*old(submission)
                },
            }),
    {
        if let Kind::Direct = self {
            submission.flags = submission.flags | IOSQE_FIXED_FILE;
        }
    }
}

/// Bit of the raw value that marks a direct descriptor (the sign bit).
pub const DIRECT_BIT: i32 = -0x8000_0000;

/// Raw value with the direct bit set iff `kind` is `Direct`.
pub open spec fn encoded(fd: i32, kind: Kind) -> i32 {
    match kind {
        Kind::File => fd,
        Kind::Direct => fd | DIRECT_BIT,
    }
}

/// A descriptor as stored by an `AsyncFd`: the number of the descriptor, with
/// the sign bit set for direct descriptors.
#[derive(Copy, Clone, Debug, Eq, PartialEq)]
pub struct Descriptor {
    raw: i32,
}

impl Descriptor {
    /// The raw value stored.
    pub closed spec fn spec_raw(&self) -> i32 {
        self.raw
    }

    /// Create a descriptor from the descriptor number `fd` of `kind`.
    pub fn from_raw(fd: i32, kind: Kind) -> (d: Descriptor)
        ensures
            d.spec_raw() == encoded(fd, kind),
    {
        let raw = match kind {
            Kind::File => fd,
            Kind::Direct => fd | DIRECT_BIT,
        };
        Descriptor { raw }
    }

    /// Returns the kind of descriptor.
    pub fn kind(&self) -> (k: Kind)
        ensures
            k == (if self.spec_raw() < 0 {
                Kind::Direct
            } else {
                Kind::File
            }),
    {
        if self.raw < 0 {
            Kind::Direct
        } else {
            Kind::File
        }
    }

    /// Returns the descriptor number, without the direct bit.
    pub fn fd(&self) -> (fd: i32)
        ensures
            fd == self.spec_raw() & 0x7fff_ffff,
    {
        // The sign bit is used to indicate direct descriptors, so unset it.
        self.raw & 0x7fff_ffff
    }

    /// The descriptor number to use outside of io_uring operations, or `None`
    /// for a direct descriptor, which only io_uring operations can use.
    pub fn as_fd(&self) -> (fd: Option<i32>)
        ensures
            fd == (if self.spec_raw() < 0 {
                None
            } else {
                Some(self.spec_raw())
            }),
    {
        if self.raw < 0 {
            None
        } else {
            Some(self.raw)
        }
    }
}

/// A descriptor created from a non-negative number gives that number and kind
/// back.
pub proof fn lemma_descriptor_roundtrip(fd: i32, kind: Kind)
    requires
        fd >= 0,
    ensures
        (encoded(fd, kind) < 0) == (kind == Kind::Direct),
        encoded(fd, kind) & 0x7fff_ffff == fd,
{
    assert(fd >= 0 ==> (fd | -0x8000_0000i32) < 0) by (bit_vector);
    assert(fd >= 0 ==> (fd | -0x8000_0000i32) & 0x7fff_ffffi32 == fd) by (bit_vector);
    assert(fd >= 0 ==> fd & 0x7fff_ffffi32 == fd) by (bit_vector);
}

} // verus!
