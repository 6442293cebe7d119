//! Read buffer pool.
//!
//! See [`ReadBufPool`].

use vstd::prelude::*;

use crate::io::traits::{BufGroupId, BufId};
use crate::sys::EINVAL;

verus! {

/// A read buffer pool.
///
/// This is a special buffer pool that shares its buffers with the kernel. The
/// buffer pool is used by the kernel in `read(2)` and `recv(2)` like calls.
/// Instead of user space having to select a buffer before issuing the read
/// call, the kernel will select a buffer from the pool when it's ready for
/// reading.
///
/// As a result of this the returned buffer, [`ReadBuf`], is somewhat limited.
/// For example it can't grow beyond the pool's buffer size.
#[derive(Copy, Clone, Debug)]
pub struct ReadBufPool {
    /// Group id the pool is registered with.
    group_id: u16,
    /// Number of buffers in the pool.
    pool_size: u16,
    /// Capacity of each buffer.
    buf_size: u32,
}

/// A buffer the kernel assigned to a [`ReadBuf`].
#[derive(Debug)]
struct OwnedBuf {
    /// Index of the buffer in the pool.
    id: u16,
    /// Bytes in the buffer.
    data: Vec<u8>,
}

/// Buffer reference from a [`ReadBufPool`].
///
/// Before a read system call, this will be empty and can't be resized. This is
/// really only useful in a call to a `read(2)` like system call.
#[derive(Debug)]
pub struct ReadBuf {
    /// Buffer pool info.
    shared: ReadBufPool,
    /// This is `Some` if the buffer was assigned.
    owned: Option<OwnedBuf>,
}

/// A bound of a range of indices.
#[derive(Copy, Clone, Debug, PartialEq, Eq)]
pub enum Bound {
    /// The index is part of the range.
    Included(usize),
    /// The index is not part of the range.
    Excluded(usize),
    /// The range goes on to the end.
    Unbounded,
}

/// First index a range starting at `start` removes.
pub open spec fn start_index(start: Bound) -> int {
    match start {
        Bound::Unbounded => 0,
        Bound::Included(idx) => idx as int,
        Bound::Excluded(idx) => idx + 1,
    }
}

/// First index after a range ending at `end`, in a buffer of `len` bytes.
pub open spec fn end_index(end: Bound, len: int) -> int {
    match end {
        Bound::Unbounded => len,
        Bound::Included(idx) => idx + 1,
        Bound::Excluded(idx) => idx as int,
    }
}

/// A pool size the kernel accepts: a power of 2, at most 2^15 (32768).
pub open spec fn valid_pool_size(n: u16) -> bool {
    n == 1 || n == 2 || n == 4 || n == 8 || n == 16 || n == 32 || n == 64 || n == 128 || n == 256
        || n == 512 || n == 1024 || n == 2048 || n == 4096 || n == 8192 || n == 16384 || n
        == 32768
}

impl ReadBufPool {
    #[verifier::type_invariant]
    spec fn inv(&self) -> bool {
        valid_pool_size(self.pool_size)
    }

    /// Group id the pool is registered with.
    pub closed spec fn spec_group_id(&self) -> u16 {
        self.group_id
    }

    /// Number of buffers in the pool.
    pub closed spec fn spec_pool_size(&self) -> u16 {
        self.pool_size
    }

    /// Capacity of each buffer.
    pub closed spec fn spec_buf_size(&self) -> u32 {
        self.buf_size
    }

    /// Create a new buffer pool, registered under `group_id`.
    ///
    /// `pool_size` must be a power of 2, with a maximum of 2^15 (32768), else
    /// this returns `EINVAL`, as the kernel refuses other sizes. `buf_size` is
    /// the maximum capacity of the buffer. Note that buffer can't grow beyond
    /// this capacity.
    pub fn new(group_id: u16, pool_size: u16, buf_size: u32) -> (r: Result<ReadBufPool, i32>)
        ensures
            r is Ok <==> valid_pool_size(pool_size),
            match r {
                Ok(pool) => {
                    &&& pool.spec_group_id() == group_id
                    &&& pool.spec_pool_size() == pool_size
                    &&& pool.spec_buf_size() == buf_size
                },
                Err(errno) => errno == EINVAL,
            },
    {
        let power_of_two = pool_size != 0 && pool_size & (pool_size - 1) == 0;
        assert((pool_size != 0 && pool_size & ((pool_size - 1) as u16) == 0) == (pool_size == 1
            || pool_size == 2 || pool_size == 4 || pool_size == 8 || pool_size == 16 || pool_size
            == 32 || pool_size == 64 || pool_size == 128 || pool_size == 256 || pool_size == 512
            || pool_size == 1024 || pool_size == 2048 || pool_size == 4096 || pool_size == 8192
            || pool_size == 16384 || pool_size == 32768)) by (bit_vector);
        if power_of_two {
            Ok(ReadBufPool { group_id, pool_size, buf_size })
        } else {
            Err(EINVAL)
        }
    }

    /// Get a buffer reference to this pool.
    ///
    /// This can only be used in read I/O operations, but it won't yet select
    /// a buffer to use. This is done by the kernel once it actually has data
    /// to write into the buffer.
    pub fn get(&self) -> (buf: ReadBuf)
        ensures
            buf.spec_pool() == *self,
            buf.spec_id() is None,
            buf@ == Seq::<u8>::empty(),
    {
        ReadBuf { shared: *self, owned: None }
    }

    /// Returns the group id for this pool.
    pub fn group_id(&self) -> (id: BufGroupId)
        ensures
            id.0 == self.spec_group_id(),
    {
        BufGroupId(self.group_id)
    }

    /// Returns the number of buffers in the pool.
    pub fn pool_size(&self) -> (n: u16)
        ensures
            n == self.spec_pool_size(),
            valid_pool_size(n),
    {
        proof {
            use_type_invariant(self);
        }
        self.pool_size
    }

    /// Returns the capacity of each buffer in the pool.
    pub fn buf_size(&self) -> (n: u32)
        ensures
            n == self.spec_buf_size(),
    {
        self.buf_size
    }

    /// Initialise a buffer with `id` holding `data`, the bytes the kernel
    /// read into it.
    ///
    /// If the kernel read 0 bytes into buffer 0 it didn't actually allocate a
    /// buffer.
    pub fn new_buffer(&self, id: BufId, data: Vec<u8>) -> (buf: ReadBuf)
        requires
            data@.len() <= self.spec_buf_size(),
            // The kernel selects one of the pool's buffers.
            id.0 < self.spec_pool_size(),
        ensures
            buf.spec_pool() == *self,
            buf.spec_id() == (if data@.len() == 0 && id.0 == 0 {
                None
            } else {
                Some(id.0)
            }),
            buf@ == data@,
    {
        let owned = if data.len() == 0 && id.0 == 0 {
            None
        } else {
            Some(OwnedBuf { id: id.0, data })
        };
        ReadBuf { shared: *self, owned }
    }
}

impl View for ReadBuf {
    type V = Seq<u8>;

    /// The bytes in the buffer; empty if no buffer was assigned.
    closed spec fn view(&self) -> Seq<u8> {
        match self.owned {
            Some(buf) => buf.data@,
            None => Seq::empty(),
        }
    }
}

impl ReadBuf {
    #[verifier::type_invariant]
    spec fn inv(&self) -> bool {
        match self.owned {
            Some(buf) => buf.data@.len() <= self.shared.buf_size && buf.id < self.shared.pool_size,
            None => true,
        }
    }

    /// The pool the buffer belongs to.
    pub closed spec fn spec_pool(&self) -> ReadBufPool {
        self.shared
    }

    /// Index of the assigned buffer, `None` if no buffer is assigned.
    pub closed spec fn spec_id(&self) -> Option<u16> {
        match self.owned {
            Some(buf) => Some(buf.id),
            None => None,
        }
    }

    /// Returns the capacity of the buffer.
    pub fn capacity(&self) -> (n: usize)
        ensures
            n == self.spec_pool().spec_buf_size(),
    {
        self.shared.buf_size as usize
    }

    /// Returns the length of the buffer.
    pub fn len(&self) -> (n: usize)
        ensures
            n == self@.len(),
            n <= self.spec_pool().spec_buf_size(),
            self.spec_id() is None ==> n == 0,
    {
        proof {
            use_type_invariant(self);
        }
        match &self.owned {
            Some(buf) => buf.data.len(),
            None => 0,
        }
    }

    /// Returns true if the buffer is empty.
    pub fn is_empty(&self) -> (r: bool)
        ensures
            r == (self@.len() == 0),
    {
        match &self.owned {
            Some(buf) => buf.data.len() == 0,
            None => true,
        }
    }

    /// Returns itself as slice.
    pub fn as_slice(&self) -> (s: &[u8])
        ensures
            s@ == self@,
    {
        match &self.owned {
            Some(buf) => buf.data.as_slice(),
            None => &[],
        }
    }

    /// Takes the assigned buffer out, leaving none.
    fn take_owned(&mut self) -> (owned: Option<OwnedBuf>)
        ensures
            owned == old(self).owned,
            final(self).owned is None,
            final(self).shared == old(self).shared,
    {
        proof {
            use_type_invariant(&*self);
        }
        let mut owned = None;
        std::mem::swap(&mut owned, &mut self.owned);
        owned
    }

    /// Truncate the buffer to `len` bytes.
    ///
    /// If the buffer is shorter then `len` bytes this does nothing.
    pub fn truncate(&mut self, len: usize)
        ensures
            final(self)@ == (if len < old(self)@.len() {
                old(self)@.subrange(0, len as int)
            } else {
                old(self)@
            }),
            final(self).spec_pool() == old(self).spec_pool(),
            final(self).spec_id() == old(self).spec_id(),
    {
        proof {
            use_type_invariant(&*self);
        }
        match self.take_owned() {
            Some(mut buf) => {
                if len <= buf.data.len() {
                    buf.data.truncate(len);
                }
                self.owned = Some(buf);
            },
            None => {},
        }
    }

    /// Clear the buffer.
    ///
    /// # Notes
    ///
    /// This is not the same as returning the buffer to the buffer pool, for
    /// that use [`ReadBuf::release`].
    pub fn clear(&mut self)
        ensures
            final(self)@ == Seq::<u8>::empty(),
            final(self).spec_pool() == old(self).spec_pool(),
            final(self).spec_id() == old(self).spec_id(),
    {
        proof {
            use_type_invariant(&*self);
        }
        match self.take_owned() {
            Some(mut buf) => {
                buf.data.clear();
                self.owned = Some(buf);
            },
            None => {},
        }
    }

    /// Remove the bytes in the range from `start` to `end` from the buffer.
    ///
    /// # Panics
    ///
    /// This will panic if the range is invalid, so it's left out by the
    /// `requires`.
    pub fn remove(&mut self, start: Bound, end: Bound)
        requires
            start_index(start) <= usize::MAX,
            end_index(end, old(self)@.len() as int) <= usize::MAX,
            start_index(start) <= end_index(end, old(self)@.len() as int) <= old(self)@.len(),
        ensures
            final(self)@ == old(self)@.subrange(0, start_index(start)) + old(self)@.subrange(
                end_index(end, old(self)@.len() as int),
                old(self)@.len() as int,
            ),
            final(self).spec_pool() == old(self).spec_pool(),
            final(self).spec_id() == old(self).spec_id(),
    {
        proof {
            use_type_invariant(&*self);
        }
        let old_len = self.len();
        let start = match start {
            Bound::Unbounded => 0,
            Bound::Included(start_idx) => start_idx,
            Bound::Excluded(start_idx) => start_idx + 1,
        };
        let end = match end {
            Bound::Unbounded => old_len,
            Bound::Included(end_idx) => end_idx + 1,
            Bound::Excluded(end_idx) => end_idx,
        };
        match self.take_owned() {
            Some(buf) => {
                let remove_len = end - start;
                let new_len = old_len - remove_len;
                let mut data: Vec<u8> = Vec::with_capacity(new_len);
                let mut i: usize = 0;
                while i < start
                    invariant
                        i <= start <= end <= buf.data@.len(),
                        data@ == buf.data@.subrange(0, i as int),
                    decreases start - i,
                {
                    data.push(buf.data[i]);
                    i += 1;
                    assert(data@ =~= buf.data@.subrange(0, i as int));
                }
                // We continue where the remove range ends.
                let mut j: usize = end;
                while j < old_len
                    invariant
                        start <= end <= j <= old_len,
                        old_len == buf.data@.len(),
                        data@ == buf.data@.subrange(0, start as int) + buf.data@.subrange(
                            end as int,
                            j as int,
                        ),
                    decreases old_len - j,
                {
                    data.push(buf.data[j]);
                    j += 1;
                    assert(data@ =~= buf.data@.subrange(0, start as int) + buf.data@.subrange(
                        end as int,
                        j as int,
                    ));
                }
                self.owned = Some(OwnedBuf { id: buf.id, data });
            },
            None => {},
        }
    }

    /// Appends `other` to `self`.
    ///
    /// If `self` doesn't have sufficient capacity, or no buffer is assigned, it
    /// will return `Err(())` and will not append anything.
    pub fn extend_from_slice(&mut self, other: &[u8]) -> (r: Result<(), ()>)
        ensures
            r is Ok <==> (old(self).spec_id() is Some && old(self)@.len() + other@.len()
                <= old(self).spec_pool().spec_buf_size()),
            final(self)@ == (if r is Ok {
                old(self)@ + other@
            } else {
                old(self)@
            }),
            final(self).spec_pool() == old(self).spec_pool(),
            final(self).spec_id() == old(self).spec_id(),
    {
        proof {
            use_type_invariant(&*self);
        }
        let capacity = self.capacity();
        match self.take_owned() {
            Some(mut buf) => {
                if other.len() > capacity - buf.data.len() {
                    self.owned = Some(buf);
                    return Err(());
                }
                let mut i: usize = 0;
                let ghost before = buf.data@;
                while i < other.len()
                    invariant
                        i <= other@.len(),
                        buf.data@ == before + other@.subrange(0, i as int),
                        buf.id == old(self).owned->Some_0.id,
                    decreases other@.len() - i,
                {
                    buf.data.push(other[i]);
                    i += 1;
                    assert(buf.data@ =~= before + other@.subrange(0, i as int));
                }
                assert(other@.subrange(0, other@.len() as int) =~= other@);
                self.owned = Some(buf);
                Ok(())
            },
            None => Err(()),
        }
    }

    /// Number of bytes a read into this buffer may write: the unused capacity
    /// of the assigned buffer, or a whole buffer if none is assigned yet.
    pub fn spare_capacity(&self) -> (n: u32)
        ensures
            n == self.spec_pool().spec_buf_size() - self@.len(),
    {
        proof {
            use_type_invariant(self);
        }
        match &self.owned {
            Some(buf) => (self.shared.buf_size as usize - buf.data.len()) as u32,
            None => self.shared.buf_size,
        }
    }

    /// Release the buffer back to the buffer pool, returning its index.
    ///
    /// If `self` isn't an allocated buffer this does nothing and returns
    /// `None`.
    ///
    /// The buffer can still be used in a `read(2)` system call, it's reset to
    /// the state as if it was just created by calling [`ReadBufPool::get`].
    pub fn release(&mut self) -> (id: Option<BufId>)
        ensures
            id == (match old(self).spec_id() {
                Some(i) => Some(BufId(i)),
                None => None,
            }),
            final(self).spec_id() is None,
            final(self)@ == Seq::<u8>::empty(),
            final(self).spec_pool() == old(self).spec_pool(),
    {
        match self.take_owned() {
            Some(buf) => Some(BufId(buf.id)),
            None => None,
        }
    }

    /// Buffer group to let the kernel select a buffer from, or `None` if a
    /// buffer is already assigned.
    pub fn buffer_group(&self) -> (g: Option<BufGroupId>)
        ensures
            g == (if self.spec_id() is None {
                Some(BufGroupId(self.spec_pool().spec_group_id()))
            } else {
                None
            }),
    {
        if self.owned.is_none() {
            Some(BufGroupId(self.shared.group_id))
        } else {
            // Already have an allocated buffer, don't need another one.
            None
        }
    }

    /// Mark the bytes `data`, read by the kernel, as initialised.
    ///
    /// If no buffer was assigned the kernel selected buffer `id` and `data` is
    /// its contents, otherwise the kernel appended `data` to the assigned
    /// buffer.
    pub fn buffer_init(&mut self, id: BufId, data: Vec<u8>)
        requires
            old(self)@.len() + data@.len() <= old(self).spec_pool().spec_buf_size(),
            // An assigned buffer grows, the kernel doesn't assign another one.
            old(self).spec_id() is Some ==> id.0 == 0,
            // The kernel selects one of the pool's buffers.
            old(self).spec_id() is None ==> id.0 < old(self).spec_pool().spec_pool_size(),
        ensures
            final(self)@ == old(self)@ + data@,
            final(self).spec_id() == (match old(self).spec_id() {
                Some(i) => Some(i),
                None => Some(id.0),
            }),
            final(self).spec_pool() == old(self).spec_pool(),
    {
        proof {
            use_type_invariant(&*self);
        }
        match self.take_owned() {
            Some(mut buf) => {
                let mut other = data;
                buf.data.append(&mut other);
                self.owned = Some(buf);
            },
            None => {
                self.owned = Some(OwnedBuf { id: id.0, data });
            },
        }
    }
}

/// A buffer that has no buffer of the pool assigned is empty.
pub proof fn lemma_unassigned_is_empty(buf: ReadBuf)
    requires
        buf.spec_id() is None,
    ensures
        buf@ == Seq::<u8>::empty(),
{
}

} // verus!
