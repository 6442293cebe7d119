//! Type definitions for I/O functionality.
//!
//! Reading and writing are done with the requests [`Read`], [`ReadVectored`],
//! [`Write`] and [`WriteVectored`]. Reading at least some number of bytes and
//! writing all bytes can take several of them: [`ReadN`], [`ReadNVectored`],
//! [`WriteAll`] and [`WriteAllVectored`] decide after each completed request
//! what happens next.

pub mod read_buf;
pub mod traits;

use vstd::prelude::*;

use crate::fd::Descriptor;
use crate::io::traits::{extend_from_slice, prefix_sum, share, share_start, total, BufGroupId};
use crate::sq::Submission;
use crate::sys::{
    IORING_OP_READ, IORING_OP_READV, IORING_OP_WRITE, IORING_OP_WRITEV, IOSQE_BUFFER_SELECT,
    SPLICE_F_MORE, SPLICE_F_MOVE,
};

verus! {

/// Offset meaning "use (and advance) the file position", like `read(2)` and
/// `write(2)` do.
///
/// `-1` cast as `unsigned long long` in C is the same as as `u64::MAX`.
pub const NO_OFFSET: u64 = 0xffff_ffff_ffff_ffff;

/// A read changed to start at `offset`, unless it was submitted.
pub open spec fn read_at(r: Read, offset: u64) -> Read {
    if r.submitted {
        r
    } else {
        Read { offset, submitted: false }
    }
}

/// A vectored read changed to start at `offset`, unless it was submitted.
pub open spec fn read_vectored_at(r: ReadVectored, offset: u64) -> ReadVectored {
    if r.submitted {
        r
    } else {
        ReadVectored { offset, submitted: false }
    }
}

/// A [`ReadN`] changed to start at `offset`, unless its first read was
/// submitted.
pub open spec fn read_n_at(r: ReadN, offset: u64) -> ReadN {
    if r.submitted {
        r
    } else {
        ReadN { offset, ..r }
    }
}

/// A [`ReadNVectored`] changed to start at `offset`, unless its first read
/// was submitted.
pub open spec fn read_n_vectored_at(r: ReadNVectored, offset: u64) -> ReadNVectored {
    if r.submitted {
        r
    } else {
        ReadNVectored { offset, ..r }
    }
}

/// Once a read was submitted, changing where it reads has no effect: the
/// submission filled from it, and the reads of a [`ReadN`] or
/// [`ReadNVectored`] after their first one, keep their offsets.
pub proof fn lemma_at_after_submission(
    r: Read,
    rv: ReadVectored,
    rn: ReadN,
    rnv: ReadNVectored,
    offset: u64,
)
    ensures
        read_at(Read { submitted: true, ..r }, offset) == (Read { submitted: true, ..r }),
        read_vectored_at(ReadVectored { submitted: true, ..rv }, offset) == (ReadVectored {
            submitted: true,
            ..rv
        }),
        read_n_at(ReadN { submitted: true, ..rn }, offset) == (ReadN { submitted: true, ..rn }),
        read_n_vectored_at(ReadNVectored { submitted: true, ..rnv }, offset) == (ReadNVectored {
            submitted: true,
            ..rnv
        }),
        // Before it the offset is the one asked for.
        !r.submitted ==> read_at(r, offset).offset == offset,
        !rn.submitted ==> read_n_at(rn, offset).offset == offset,
{
}

/// Arguments of a `read(2)` operation.
#[derive(Copy, Clone, Debug, PartialEq, Eq)]
pub struct Read {
    /// Where to read from, or [`NO_OFFSET`].
    pub offset: u64,
    /// The read was submitted: its arguments no longer change.
    pub submitted: bool,
}

impl Read {
    /// Read from the current file position.
    pub fn new() -> (op: Read)
        ensures
            op == (Read { offset: NO_OFFSET, submitted: false }),
    {
        Read { offset: NO_OFFSET, submitted: false }
    }

    /// Change to a positional read starting at `offset`.
    ///
    /// The current file cursor is not affected by this function. Once the
    /// read was submitted this has no effect.
    pub fn at(self, offset: u64) -> (op: Self)
        ensures
            op == read_at(self, offset),
    {
        if self.submitted {
            self
        } else {
            Read { offset, submitted: false }
        }
    }

    /// Fill `submission` to read from `fd` into the buffer at `buf_addr` with
    /// room for `buf_len` bytes, or into a buffer the kernel selects from
    /// `buf_group`.
    pub fn fill_submission(
        &mut self,
        fd: &Descriptor,
        buf_addr: u64,
        buf_len: u32,
        buf_group: Option<BufGroupId>,
        submission: &mut Submission,
    )
        ensures
            *final(self) == (Read { submitted: true, ..*old(self) }),
            *final(submission) == (match buf_group {
                None => Submission {
                    opcode: IORING_OP_READ,
                    fd: fd.spec_raw() & 0x7fff_ffff,
                    off: old(self).offset,
                    addr: buf_addr,
                    len: buf_len,
                    ..*old(submission)
                },
                Some(group) => Submission {
                    opcode: IORING_OP_READ,
                    fd: fd.spec_raw() & 0x7fff_ffff,
                    off: old(self).offset,
                    addr: buf_addr,
                    len: buf_len,
                    buf_group: group.0,
                    flags: old(submission).flags | IOSQE_BUFFER_SELECT,
                    ..*old(submission)
                },
            }),
    {
        submission.opcode = IORING_OP_READ;
        submission.fd = fd.fd();
        submission.off = self.offset;
        submission.addr = buf_addr;
        submission.len = buf_len;
        if let Some(group) = buf_group {
            submission.set_buffer_select(group.0);
        }
        self.submitted = true;
    }
}

/// Arguments of a `readv(2)` operation.
#[derive(Copy, Clone, Debug, PartialEq, Eq)]
pub struct ReadVectored {
    /// Where to read from, or [`NO_OFFSET`].
    pub offset: u64,
    /// The read was submitted: its arguments no longer change.
    pub submitted: bool,
}

impl ReadVectored {
    /// Read from the current file position.
    pub fn new() -> (op: ReadVectored)
        ensures
            op == (ReadVectored { offset: NO_OFFSET, submitted: false }),
    {
        ReadVectored { offset: NO_OFFSET, submitted: false }
    }

    /// Change to a positional read starting at `offset`. Once the read was
    /// submitted this has no effect.
    pub fn at(self, offset: u64) -> (op: Self)
        ensures
            op == read_vectored_at(self, offset),
    {
        if self.submitted {
            self
        } else {
            ReadVectored { offset, submitted: false }
        }
    }

    /// Fill `submission` to read from `fd` into the `iovecs_len` buffers
    /// described by the iovecs at `iovecs_addr`.
    pub fn fill_submission(
        &mut self,
        fd: &Descriptor,
        iovecs_addr: u64,
        iovecs_len: u32,
        submission: &mut Submission,
    )
        ensures
            *final(self) == (ReadVectored { submitted: true, ..*old(self) }),
            *final(submission) == (Submission {
                opcode: IORING_OP_READV,
                fd: fd.spec_raw() & 0x7fff_ffff,
                off: old(self).offset,
                addr: iovecs_addr,
                len: iovecs_len,
                ..*old(submission)
            }),
    {
        submission.opcode = IORING_OP_READV;
        submission.fd = fd.fd();
        submission.off = self.offset;
        submission.addr = iovecs_addr;
        submission.len = iovecs_len;
        self.submitted = true;
    }
}

/// Arguments of a `write(2)` operation.
#[derive(Copy, Clone, Debug, PartialEq, Eq)]
pub struct Write {
    /// Where to write to, or [`NO_OFFSET`].
    pub offset: u64,
}

impl Write {
    /// Write at `offset`, or at the current file position for [`NO_OFFSET`].
    pub fn new(offset: u64) -> (op: Write)
        ensures
            op.offset == offset,
    {
        Write { offset }
    }

    /// Fill `submission` to write the `buf_len` bytes at `buf_addr` to `fd`.
    pub fn fill_submission(
        &self,
        fd: &Descriptor,
        buf_addr: u64,
        buf_len: u32,
        submission: &mut Submission,
    )
        ensures
            *final(submission) == (Submission {
                opcode: IORING_OP_WRITE,
                fd: fd.spec_raw() & 0x7fff_ffff,
                off: self.offset,
                addr: buf_addr,
                len: buf_len,
                ..*old(submission)
            }),
    {
        submission.opcode = IORING_OP_WRITE;
        submission.fd = fd.fd();
        submission.off = self.offset;
        submission.addr = buf_addr;
        submission.len = buf_len;
    }
}

/// Arguments of a `writev(2)` operation.
#[derive(Copy, Clone, Debug, PartialEq, Eq)]
pub struct WriteVectored {
    /// Where to write to, or [`NO_OFFSET`].
    pub offset: u64,
}

impl WriteVectored {
    /// Write at `offset`, or at the current file position for [`NO_OFFSET`].
    pub fn new(offset: u64) -> (op: WriteVectored)
        ensures
            op.offset == offset,
    {
        WriteVectored { offset }
    }

    /// Fill `submission` to write the `iovecs_len` buffers described by the
    /// iovecs at `iovecs_addr` to `fd`.
    pub fn fill_submission(
        &self,
        fd: &Descriptor,
        iovecs_addr: u64,
        iovecs_len: u32,
        submission: &mut Submission,
    )
        ensures
            *final(submission) == (Submission {
                opcode: IORING_OP_WRITEV,
                fd: fd.spec_raw() & 0x7fff_ffff,
                off: self.offset,
                addr: iovecs_addr,
                len: iovecs_len,
                ..*old(submission)
            }),
    {
        submission.opcode = IORING_OP_WRITEV;
        submission.fd = fd.fd();
        submission.off = self.offset;
        submission.addr = iovecs_addr;
        submission.len = iovecs_len;
    }
}

/// What to do after a read of a [`ReadN`] or [`ReadNVectored`] completed.
#[derive(Copy, Clone, Debug, PartialEq, Eq)]
pub enum ReadNStep {
    /// The read returned no bytes before the minimum was reached.
    UnexpectedEof,
    /// The minimum number of bytes has been read.
    Done,
    /// Read again, with the updated offset.
    Again,
}

/// What to do after a write of a [`WriteAll`] or [`WriteAllVectored`]
/// completed.
#[derive(Copy, Clone, Debug, PartialEq, Eq)]
pub enum WriteAllStep {
    /// The write wrote no bytes.
    WriteZero,
    /// All bytes have been written.
    Done,
    /// Write again, the bytes not yet written.
    Again,
}

/// Offset after `n` more bytes were read or written at `offset`.
pub open spec fn advance(offset: u64, n: int) -> u64 {
    if offset == NO_OFFSET {
        offset
    } else {
        (offset + n) as u64
    }
}

/// Outcome of a read of `last_read` bytes when `left` more bytes are needed.
pub open spec fn read_n_step(left: usize, last_read: usize) -> ReadNStep {
    if last_read == 0 {
        ReadNStep::UnexpectedEof
    } else if last_read >= left {
        ReadNStep::Done
    } else {
        ReadNStep::Again
    }
}

/// State of a [`ReadN`] after a read returned `last_read` bytes.
pub open spec fn read_n_next(r: ReadN, last_read: usize) -> ReadN {
    if read_n_step(r.left, last_read) == ReadNStep::Again {
        ReadN {
            offset: advance(r.offset, last_read as int),
            left: (r.left - last_read) as usize,
            ..r
        }
    } else {
        r
    }
}

/// State of a [`ReadN`] after the first `k` reads, of `reads` bytes.
pub open spec fn read_n_after(r: ReadN, reads: Seq<usize>, k: int) -> ReadN
    decreases k,
{
    if k <= 0 {
        r
    } else {
        read_n_next(read_n_after(r, reads, k - 1), reads[k - 1])
    }
}

/// Reading at least `n` bytes, see [`ReadN::step`].
#[derive(Copy, Clone, Debug, PartialEq, Eq)]
pub struct ReadN {
    /// Offset of the next read, or [`NO_OFFSET`].
    pub offset: u64,
    /// Number of bytes we still need to read to hit our minimum.
    pub left: usize,
    /// The first read was submitted: the offset only moves on with the
    /// bytes read.
    pub submitted: bool,
}

impl ReadN {
    /// Read at least `n` bytes from the current file position.
    pub fn new(n: usize) -> (r: ReadN)
        ensures
            r == (ReadN { offset: NO_OFFSET, left: n, submitted: false }),
    {
        ReadN { offset: NO_OFFSET, left: n, submitted: false }
    }

    /// Change to a positional read starting at `offset`. Once the first read
    /// was submitted this has no effect.
    pub fn at(self, offset: u64) -> (r: Self)
        ensures
            r == read_n_at(self, offset),
    {
        if self.submitted {
            self
        } else {
            ReadN { offset, left: self.left, submitted: false }
        }
    }

    /// The next read to issue; from now on the reads are submitted.
    pub fn read(&mut self) -> (op: Read)
        ensures
            op == (Read { offset: old(self).offset, submitted: false }),
            *final(self) == (ReadN { submitted: true, ..*old(self) }),
    {
        self.submitted = true;
        Read { offset: self.offset, submitted: false }
    }

    /// Decide what to do after a read returned `last_read` bytes.
    pub fn step(&mut self, last_read: usize) -> (s: ReadNStep)
        requires
            old(self).offset != NO_OFFSET && 0 < last_read < old(self).left ==> old(self).offset
                + last_read <= u64::MAX,
        ensures
            s == read_n_step(old(self).left, last_read),
            *final(self) == read_n_next(*old(self), last_read),
    {
        if last_read == 0 {
            return ReadNStep::UnexpectedEof;
        }
        if last_read >= self.left {
            // Read the required amount of bytes.
            return ReadNStep::Done;
        }
        self.left = self.left - last_read;
        if self.offset != NO_OFFSET {
            self.offset = self.offset + last_read as u64;
        }
        ReadNStep::Again
    }

    /// Decide what to do after a read returned the bytes `data`, which the
    /// read put in `buf` after the bytes read before.
    pub fn read_completed(&mut self, buf: &mut Vec<u8>, data: &[u8]) -> (s: ReadNStep)
        requires
            old(self).offset != NO_OFFSET && 0 < data@.len() < old(self).left ==> old(self).offset
                + data@.len() <= u64::MAX,
        ensures
            s == read_n_step(old(self).left, data@.len() as usize),
            *final(self) == read_n_next(*old(self), data@.len() as usize),
            final(buf)@ == old(buf)@ + data@,
    {
        let mut k: usize = 0;
        while k < data.len()
            invariant
                k <= data@.len(),
                buf@ == old(buf)@ + data@.subrange(0, k as int),
            decreases data@.len() - k,
        {
            buf.push(data[k]);
            k += 1;
            assert(buf@ =~= old(buf)@ + data@.subrange(0, k as int));
        }
        assert(data@.subrange(0, data@.len() as int) =~= data@);
        self.step(data.len())
    }
}

/// Reading at least `n` bytes into several buffers, see
/// [`ReadNVectored::step`].
#[derive(Copy, Clone, Debug, PartialEq, Eq)]
pub struct ReadNVectored {
    /// Offset of the next read, or [`NO_OFFSET`].
    pub offset: u64,
    /// Number of bytes we still need to read to hit our minimum.
    pub left: usize,
    /// The first read was submitted: the offset only moves on with the
    /// bytes read.
    pub submitted: bool,
}

impl ReadNVectored {
    /// Read at least `n` bytes from the current file position.
    pub fn new(n: usize) -> (r: ReadNVectored)
        ensures
            r == (ReadNVectored { offset: NO_OFFSET, left: n, submitted: false }),
    {
        ReadNVectored { offset: NO_OFFSET, left: n, submitted: false }
    }

    /// Change to a positional read starting at `offset`. Once the first read
    /// was submitted this has no effect.
    pub fn at(self, offset: u64) -> (r: Self)
        ensures
            r == read_n_vectored_at(self, offset),
    {
        if self.submitted {
            self
        } else {
            ReadNVectored { offset, left: self.left, submitted: false }
        }
    }

    /// The next read to issue; from now on the reads are submitted.
    pub fn read(&mut self) -> (op: ReadVectored)
        ensures
            op == (ReadVectored { offset: old(self).offset, submitted: false }),
            *final(self) == (ReadNVectored { submitted: true, ..*old(self) }),
    {
        self.submitted = true;
        ReadVectored { offset: self.offset, submitted: false }
    }

    /// Decide what to do after a read returned `last_read` bytes.
    pub fn step(&mut self, last_read: usize) -> (s: ReadNStep)
        requires
            old(self).offset != NO_OFFSET && 0 < last_read < old(self).left ==> old(self).offset
                + last_read <= u64::MAX,
        ensures
            s == read_n_step(old(self).left, last_read),
            *final(self) == (if s == ReadNStep::Again {
                ReadNVectored {
                    offset: advance(old(self).offset, last_read as int),
                    left: (old(self).left - last_read) as usize,
                    ..*old(self)
                }
            } else {
                *old(self)
            }),
    {
        if last_read == 0 {
            return ReadNStep::UnexpectedEof;
        }
        if last_read >= self.left {
            // Read the required amount of bytes.
            return ReadNStep::Done;
        }
        self.left = self.left - last_read;
        if self.offset != NO_OFFSET {
            self.offset = self.offset + last_read as u64;
        }
        ReadNStep::Again
    }

    /// Decide what to do after a read returned the bytes `data`, which the
    /// read spread over `bufs`, which had room for `rooms` more bytes each,
    /// filling the first before the next got any.
    pub fn read_completed(&mut self, bufs: &mut Vec<Vec<u8>>, rooms: &[usize], data: &[u8]) -> (s: ReadNStep)
        requires
            old(bufs)@.len() == rooms@.len(),
            data@.len() <= total(rooms@),
            old(self).offset != NO_OFFSET && 0 < data@.len() < old(self).left ==> old(self).offset
                + data@.len() <= u64::MAX,
        ensures
            s == read_n_step(old(self).left, data@.len() as usize),
            *final(self) == (if s == ReadNStep::Again {
                ReadNVectored {
                    offset: advance(old(self).offset, data@.len() as int),
                    left: (old(self).left - data@.len()) as usize,
                    ..*old(self)
                }
            } else {
                *old(self)
            }),
            final(bufs)@.len() == old(bufs)@.len(),
            forall|i: int|
                0 <= i < rooms@.len() ==> #[trigger] final(bufs)@[i]@ == old(bufs)@[i]@ + data@.subrange(
                    share_start(rooms@, data@.len() as int, i),
                    share_start(rooms@, data@.len() as int, i) + share(rooms@, data@.len() as int, i),
                ),
    {
        let _ = extend_from_slice(bufs, rooms, data);
        self.step(data.len())
    }
}

/// Outcome of a write of `n` bytes of a [`WriteAll`].
pub open spec fn write_all_step(w: WriteAll, n: usize) -> WriteAllStep {
    if n == 0 {
        WriteAllStep::WriteZero
    } else if w.skip + n == w.len {
        WriteAllStep::Done
    } else {
        WriteAllStep::Again
    }
}

/// State of a [`WriteAll`] after a write of `n` bytes.
pub open spec fn write_all_next(w: WriteAll, n: usize) -> WriteAll {
    if n == 0 {
        w
    } else {
        WriteAll { offset: advance(w.offset, n as int), skip: (w.skip + n) as u32, len: w.len }
    }
}

/// State of a [`WriteAll`] after the first `k` writes, of `writes` bytes.
pub open spec fn write_all_after(w: WriteAll, writes: Seq<usize>, k: int) -> WriteAll
    decreases k,
{
    if k <= 0 {
        w
    } else {
        write_all_next(write_all_after(w, writes, k - 1), writes[k - 1])
    }
}

/// Writing all of a buffer of `len` bytes, see [`WriteAll::step`].
#[derive(Copy, Clone, Debug, PartialEq, Eq)]
pub struct WriteAll {
    /// Offset of the next write, or [`NO_OFFSET`].
    pub offset: u64,
    /// Number of bytes of the buffer already written.
    pub skip: u32,
    /// Length of the buffer.
    pub len: u32,
}

impl WriteAll {
    /// Write all `len` bytes of a buffer at `offset`, or at the current file
    /// position for [`NO_OFFSET`].
    pub fn new(len: u32, offset: u64) -> (w: WriteAll)
        ensures
            w == (WriteAll { offset, skip: 0, len }),
    {
        WriteAll { offset, skip: 0, len }
    }

    /// The next write to issue: the buffer from `skip()` on, `remaining()`
    /// bytes long.
    pub fn write(&self) -> (op: Write)
        ensures
            op.offset == self.offset,
    {
        Write { offset: self.offset }
    }

    /// Number of bytes not yet written.
    pub fn remaining(&self) -> (n: u32)
        ensures
            n == (if self.skip >= self.len { 0 } else { self.len - self.skip }),
    {
        crate::io::traits::skip_len(self.len, self.skip)
    }

    /// Decide what to do after a write wrote `n` bytes.
    pub fn step(&mut self, n: usize) -> (s: WriteAllStep)
        requires
            old(self).skip + n <= old(self).len,
            old(self).offset != NO_OFFSET && n > 0 ==> old(self).offset + n <= u64::MAX,
        ensures
            s == write_all_step(*old(self), n),
            *final(self) == write_all_next(*old(self), n),
    {
        if n == 0 {
            return WriteAllStep::WriteZero;
        }
        self.skip = self.skip + n as u32;
        if self.offset != NO_OFFSET {
            self.offset = self.offset + n as u64;
        }
        if self.remaining() == 0 {
            // Written everything.
            return WriteAllStep::Done;
        }
        WriteAllStep::Again
    }
}

/// Moving on by `a` and then by `b` bytes is moving on by `a + b` bytes.
proof fn lemma_advance_twice(offset: u64, a: int, b: int)
    requires
        0 <= a,
        0 <= b,
        offset != NO_OFFSET ==> offset + a + b < NO_OFFSET,
    ensures
        advance(advance(offset, a), b) == advance(offset, a + b),
{
}

/// The state of a [`WriteAll`] after its first `k` writes, each of at least
/// one byte.
proof fn lemma_write_all_after(w: WriteAll, writes: Seq<usize>, k: int)
    requires
        0 <= k <= writes.len(),
        w.skip <= w.len,
        forall|i: int| 0 <= i < writes.len() ==> writes[i] > 0,
        total(writes) == w.len - w.skip,
        w.offset != NO_OFFSET ==> w.offset + total(writes) < NO_OFFSET,
    ensures
        write_all_after(w, writes, k) == (WriteAll {
            offset: advance(w.offset, prefix_sum(writes, k)),
            skip: (w.skip + prefix_sum(writes, k)) as u32,
            len: w.len,
        }),
    decreases k,
{
    crate::io::traits::lemma_prefix_sum_bounds(writes, k, writes.len() as int);
    if k > 0 {
        lemma_write_all_after(w, writes, k - 1);
        crate::io::traits::lemma_prefix_sum_bounds(writes, k - 1, k);
        lemma_advance_twice(w.offset, prefix_sum(writes, k - 1), writes[k - 1] as int);
    }
}

/// Writing all of a buffer: when each write writes at least one byte and the
/// writes add up to the bytes left, every write but the last asks for
/// another write, the last one finds everything written, and the offset
/// moved on by the bytes written.
pub proof fn lemma_write_all_completes(w: WriteAll, writes: Seq<usize>)
    requires
        w.skip <= w.len,
        writes.len() > 0,
        forall|i: int| 0 <= i < writes.len() ==> writes[i] > 0,
        total(writes) == w.len - w.skip,
        w.offset != NO_OFFSET ==> w.offset + total(writes) < NO_OFFSET,
    ensures
        forall|k: int|
            0 <= k < writes.len() - 1 ==> #[trigger] write_all_step(
                write_all_after(w, writes, k),
                writes[k],
            ) == WriteAllStep::Again,
        write_all_step(write_all_after(w, writes, writes.len() - 1), writes.last())
            == WriteAllStep::Done,
        write_all_after(w, writes, writes.len() as int) == (WriteAll {
            offset: advance(w.offset, total(writes)),
            skip: w.len,
            len: w.len,
        }),
{
    let n = writes.len() as int;
    assert forall|k: int| 0 <= k < n - 1 implies #[trigger] write_all_step(
        write_all_after(w, writes, k),
        writes[k],
    ) == WriteAllStep::Again by {
        lemma_write_all_after(w, writes, k);
        crate::io::traits::lemma_prefix_sum_bounds(writes, k, k + 1);
        crate::io::traits::lemma_prefix_sum_bounds(writes, k + 1, n - 1);
        crate::io::traits::lemma_prefix_sum_bounds(writes, n - 1, n);
    }
    lemma_write_all_after(w, writes, n - 1);
    lemma_write_all_after(w, writes, n);
    crate::io::traits::lemma_prefix_sum_bounds(writes, n - 1, n);
}

/// The state of a [`ReadN`] after its first `k` reads, each of at least one
/// byte, none of which reached the minimum.
proof fn lemma_read_n_after(r: ReadN, reads: Seq<usize>, k: int)
    requires
        0 <= k < reads.len(),
        forall|i: int| 0 <= i < reads.len() ==> reads[i] > 0,
        prefix_sum(reads, reads.len() - 1) < r.left,
        r.offset != NO_OFFSET ==> r.offset + prefix_sum(reads, reads.len() - 1) < NO_OFFSET,
    ensures
        read_n_after(r, reads, k) == (ReadN {
            offset: advance(r.offset, prefix_sum(reads, k)),
            left: (r.left - prefix_sum(reads, k)) as usize,
            ..r
        }),
    decreases k,
{
    crate::io::traits::lemma_prefix_sum_bounds(reads, k, reads.len() - 1);
    if k > 0 {
        lemma_read_n_after(r, reads, k - 1);
        crate::io::traits::lemma_prefix_sum_bounds(reads, k - 1, k);
        lemma_advance_twice(r.offset, prefix_sum(reads, k - 1), reads[k - 1] as int);
    }
}

/// Reading at least `n` bytes: when each read returns at least one byte,
/// every read before the minimum is reached asks for another read, the read
/// that reaches it ends the reading, and the offset moved on by the bytes
/// read before it.
pub proof fn lemma_read_n_completes(r: ReadN, reads: Seq<usize>)
    requires
        reads.len() > 0,
        forall|i: int| 0 <= i < reads.len() ==> reads[i] > 0,
        prefix_sum(reads, reads.len() - 1) < r.left <= total(reads),
        r.offset != NO_OFFSET ==> r.offset + prefix_sum(reads, reads.len() - 1) < NO_OFFSET,
    ensures
        forall|k: int|
            0 <= k < reads.len() - 1 ==> #[trigger] read_n_step(
                read_n_after(r, reads, k).left,
                reads[k],
            ) == ReadNStep::Again,
        read_n_step(read_n_after(r, reads, reads.len() - 1).left, reads.last()) == ReadNStep::Done,
        read_n_after(r, reads, reads.len() - 1) == (ReadN {
            offset: advance(r.offset, prefix_sum(reads, reads.len() - 1)),
            left: (r.left - prefix_sum(reads, reads.len() - 1)) as usize,
            ..r
        }),
{
    let n = reads.len() as int;
    assert forall|k: int| 0 <= k < n - 1 implies #[trigger] read_n_step(
        read_n_after(r, reads, k).left,
        reads[k],
    ) == ReadNStep::Again by {
        lemma_read_n_after(r, reads, k);
        crate::io::traits::lemma_prefix_sum_bounds(reads, k, k + 1);
        crate::io::traits::lemma_prefix_sum_bounds(reads, k + 1, n - 1);
    }
    lemma_read_n_after(r, reads, n - 1);
}

/// Start of the part of buffer `i`, of the buffers with `lens` bytes, that
/// is not written after the first `skip` bytes were.
pub open spec fn skipped_in(lens: Seq<usize>, skip: int, i: int) -> int {
    let s = skip - prefix_sum(lens, i);
    if s <= 0 {
        0
    } else if s < lens[i] {
        s
    } else {
        lens[i] as int
    }
}

/// An unwritten part of a buffer.
#[derive(Copy, Clone, Debug, PartialEq, Eq)]
pub struct IoRange {
    /// Offset in the buffer.
    pub start: usize,
    /// Number of bytes.
    pub len: usize,
}

/// The parts of the buffers with `lens` bytes that are left to write after
/// the first `skip` bytes were written.
pub fn remaining_iovecs(lens: &[usize], skip: u64) -> (r: Vec<IoRange>)
    ensures
        r@.len() == lens@.len(),
        forall|i: int|
            0 <= i < lens@.len() ==> #[trigger] r@[i] == (IoRange {
                start: skipped_in(lens@, skip as int, i) as usize,
                len: (lens@[i] - skipped_in(lens@, skip as int, i)) as usize,
            }),
{
    let mut iovecs: Vec<IoRange> = Vec::new();
    let mut skip_left = skip;
    let mut i: usize = 0;
    while i < lens.len()
        invariant
            i <= lens@.len(),
            iovecs@.len() == i,
            skip_left == (if skip < prefix_sum(lens@, i as int) {
                0
            } else {
                skip - prefix_sum(lens@, i as int)
            }),
            forall|j: int|
                0 <= j < i ==> #[trigger] iovecs@[j] == (IoRange {
                    start: skipped_in(lens@, skip as int, j) as usize,
                    len: (lens@[j] - skipped_in(lens@, skip as int, j)) as usize,
                }),
        decreases lens@.len() - i,
    {
        proof {
            crate::io::traits::lemma_prefix_sum_bounds(lens@, i as int, i as int + 1);
        }
        let len = lens[i];
        if (len as u64) <= skip_left {
            // Skip entire buf.
            skip_left = skip_left - len as u64;
            iovecs.push(IoRange { start: len, len: 0 });
        } else {
            let s = skip_left as usize;
            skip_left = 0;
            iovecs.push(IoRange { start: s, len: len - s });
        }
        i += 1;
    }
    iovecs
}

/// Returns true if no part of the buffers with `lens` bytes is left to write
/// after the first `skip` bytes were written.
pub fn all_written(lens: &[usize], skip: u64) -> (r: bool)
    requires
        skip <= total(lens@),
    ensures
        r == (skip == total(lens@)),
{
    let iovecs = remaining_iovecs(lens, skip);
    let mut i: usize = 0;
    while i < iovecs.len()
        invariant
            i <= iovecs@.len(),
            iovecs@.len() == lens@.len(),
            skip <= total(lens@),
            forall|j: int|
                0 <= j < iovecs@.len() ==> #[trigger] iovecs@[j] == (IoRange {
                    start: skipped_in(lens@, skip as int, j) as usize,
                    len: (lens@[j] - skipped_in(lens@, skip as int, j)) as usize,
                }),
            prefix_sum(lens@, i as int) <= skip,
        decreases iovecs@.len() - i,
    {
        proof {
            crate::io::traits::lemma_prefix_sum_bounds(lens@, i as int, i as int + 1);
        }
        let ghost entry = iovecs@[i as int];
        if iovecs[i].len != 0 {
            proof {
                crate::io::traits::lemma_prefix_sum_bounds(lens@, i as int + 1, lens@.len() as int);
            }
            return false;
        }
        i += 1;
    }
    true
}

/// Writing all of several buffers, see [`WriteAllVectored::step`].
#[derive(Copy, Clone, Debug, PartialEq, Eq)]
pub struct WriteAllVectored {
    /// Offset of the next write, or [`NO_OFFSET`].
    pub offset: u64,
    /// Number of bytes already written.
    pub skip: u64,
}

impl WriteAllVectored {
    /// Write all buffers at `offset`, or at the current file position for
    /// [`NO_OFFSET`].
    pub fn new(offset: u64) -> (w: WriteAllVectored)
        ensures
            w == (WriteAllVectored { offset, skip: 0 }),
    {
        WriteAllVectored { offset, skip: 0 }
    }

    /// The next write to issue, of the parts given by [`remaining_iovecs`].
    pub fn write(&self) -> (op: WriteVectored)
        ensures
            op.offset == self.offset,
    {
        WriteVectored { offset: self.offset }
    }

    /// Decide what to do after a write of the buffers with `lens` bytes wrote
    /// `n` bytes.
    pub fn step(&mut self, n: usize, lens: &[usize]) -> (s: WriteAllStep)
        requires
            old(self).skip + n <= total(lens@),
            old(self).skip + n <= u64::MAX,
            old(self).offset != NO_OFFSET && n > 0 ==> old(self).offset + n <= u64::MAX,
        ensures
            s == (if n == 0 {
                WriteAllStep::WriteZero
            } else if old(self).skip + n == total(lens@) {
                WriteAllStep::Done
            } else {
                WriteAllStep::Again
            }),
            *final(self) == (if n == 0 {
                *old(self)
            } else {
                WriteAllVectored {
                    offset: advance(old(self).offset, n as int),
                    skip: (old(self).skip + n) as u64,
                }
            }),
    {
        if n == 0 {
            return WriteAllStep::WriteZero;
        }
        self.skip = self.skip + n as u64;
        if self.offset != NO_OFFSET {
            self.offset = self.offset + n as u64;
        }
        if !all_written(lens, self.skip) {
            return WriteAllStep::Again;
        }
        // Written everything.
        WriteAllStep::Done
    }
}

/// Splice flags.
///
/// See [`splice_to`] and related functions.
#[derive(Copy, Clone, Debug, PartialEq, Eq)]
pub struct SpliceFlag(pub u32);

impl SpliceFlag {
    /// Attempt to move pages instead of copying.
    #[allow(non_snake_case)]
    pub fn MOVE() -> (f: SpliceFlag)
        ensures
            f.0 == SPLICE_F_MOVE,
    {
        SpliceFlag(SPLICE_F_MOVE)
    }

    /// More data will be coming in a subsequent splice.
    #[allow(non_snake_case)]
    pub fn MORE() -> (f: SpliceFlag)
        ensures
            f.0 == SPLICE_F_MORE,
    {
        SpliceFlag(SPLICE_F_MORE)
    }
}

impl std::ops::BitOr for SpliceFlag {
    type Output = Self;

    fn bitor(self, rhs: Self) -> (r: Self::Output) {
        SpliceFlag(self.0 | rhs.0)
    }
}

impl vstd::std_specs::ops::BitOrSpecImpl for SpliceFlag {
    open spec fn obeys_bitor_spec() -> bool {
        true
    }

    open spec fn bitor_req(self, rhs: Self) -> bool {
        true
    }

    open spec fn bitor_spec(self, rhs: Self) -> Self {
        SpliceFlag(self.0 | rhs.0)
    }
}

/// Direction of a splice, seen from the descriptor it's started on.
#[derive(Copy, Clone, Debug, PartialEq, Eq)]
pub enum SpliceDirection {
    /// From the descriptor to the target.
    To,
    /// From the target to the descriptor.
    From,
}

/// Arguments of a `splice(2)` operation: move data between a descriptor and
/// `target` without copying it through user space.
#[derive(Copy, Clone, Debug, PartialEq, Eq)]
pub struct Splice {
    /// The other file descriptor.
    pub target: i32,
    pub direction: SpliceDirection,
    /// Offset in the descriptor data is read from, or [`NO_OFFSET`].
    pub off_in: u64,
    /// Offset in the descriptor data is written to, or [`NO_OFFSET`].
    pub off_out: u64,
    /// Number of bytes to move.
    pub length: u32,
    pub flags: SpliceFlag,
}

/// The flags of a splice: none if not given.
pub open spec fn splice_flags(flags: Option<SpliceFlag>) -> SpliceFlag {
    match flags {
        Some(flags) => flags,
        None => SpliceFlag(0),
    }
}

fn splice(
    target: i32,
    direction: SpliceDirection,
    off_in: u64,
    off_out: u64,
    length: u32,
    flags: Option<SpliceFlag>,
) -> (op: Splice)
    ensures
        op == (Splice { target, direction, off_in, off_out, length, flags: splice_flags(flags) }),
{
    let flags = match flags {
        Some(flags) => flags,
        None => SpliceFlag(0),
    };
    Splice { target, direction, off_in, off_out, length, flags }
}

/// Splice `length` bytes to `target`, from and to the current positions.
pub fn splice_to(target: i32, length: u32, flags: Option<SpliceFlag>) -> (op: Splice)
    ensures
        op == (Splice {
            target,
            direction: SpliceDirection::To,
            off_in: NO_OFFSET,
            off_out: NO_OFFSET,
            length,
            flags: splice_flags(flags),
        }),
{
    splice_to_at(NO_OFFSET, target, NO_OFFSET, length, flags)
}

/// Same as [`splice_to`], but starts reading data at `offset` from the file
/// (instead of the current position of the read cursor) and starts writing at
/// `target_offset` to `target`.
pub fn splice_to_at(
    offset: u64,
    target: i32,
    target_offset: u64,
    length: u32,
    flags: Option<SpliceFlag>,
) -> (op: Splice)
    ensures
        op == (Splice {
            target,
            direction: SpliceDirection::To,
            off_in: offset,
            off_out: target_offset,
            length,
            flags: splice_flags(flags),
        }),
{
    splice(target, SpliceDirection::To, offset, target_offset, length, flags)
}

/// Splice `length` bytes from `target`, from and to the current positions.
pub fn splice_from(target: i32, length: u32, flags: Option<SpliceFlag>) -> (op: Splice)
    ensures
        op == (Splice {
            target,
            direction: SpliceDirection::From,
            off_in: NO_OFFSET,
            off_out: NO_OFFSET,
            length,
            flags: splice_flags(flags),
        }),
{
    splice_from_at(NO_OFFSET, target, NO_OFFSET, length, flags)
}

/// Same as [`splice_from`], but starts writing at `offset` to the file
/// (instead of the current position of the write cursor) and starts reading
/// at `target_offset` from `target`.
pub fn splice_from_at(
    offset: u64,
    target: i32,
    target_offset: u64,
    length: u32,
    flags: Option<SpliceFlag>,
) -> (op: Splice)
    ensures
        op == (Splice {
            target,
            direction: SpliceDirection::From,
            off_in: target_offset,
            off_out: offset,
            length,
            flags: splice_flags(flags),
        }),
{
    splice(target, SpliceDirection::From, target_offset, offset, length, flags)
}

} // verus!
