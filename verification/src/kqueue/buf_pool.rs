//! The kqueue backend's pool of read buffers: `pool_size` buffers of
//! `buf_size` bytes in one allocation, handed out lowest first and identified
//! by their offset in the allocation.

use vstd::prelude::*;

use crate::bitmap::AtomicBitMap;

verus! {

/// Size of the allocation of `pool_size` buffers of `buf_size` bytes,
/// aligned to pages of `page_size` bytes, if it can be allocated: rounded up
/// to whole pages it must not exceed `isize::MAX`.
pub open spec fn spec_allocation_size(pool_size: u16, buf_size: u32, page_size: usize) -> Option<usize> {
    let size = pool_size * buf_size;
    let page = page_size as int;
    let rounded = if size % page == 0 {
        size
    } else {
        size - size % page + page
    };
    if rounded <= isize::MAX {
        Some(size as usize)
    } else {
        None
    }
}

/// Size of the allocation of the buffers, see [`spec_allocation_size`].
pub fn allocation_size(pool_size: u16, buf_size: u32, page_size: usize) -> (r: Option<usize>)
    requires
        page_size > 0,
    ensures
        r == spec_allocation_size(pool_size, buf_size, page_size),
{
    proof {
        assert(pool_size * buf_size < 0x1_0000_0000_0000) by (nonlinear_arith)
            requires
                pool_size < 0x1_0000,
                buf_size < 0x1_0000_0000,
        ;
    }
    let size: u64 = pool_size as u64 * buf_size as u64;
    let page = page_size as u64;
    let rem = size % page;
    let rounded: u128 = if rem == 0 {
        size as u128
    } else {
        // Up to the next page.
        size as u128 + (page - rem) as u128
    };
    if rounded <= isize::MAX as u128 {
        Some(size as usize)
    } else {
        None
    }
}

/// Index of the buffer at `offset` in the allocation of buffers of
/// `buf_size` bytes.
pub open spec fn buf_index(offset: usize, buf_size: u32) -> int {
    (offset as int) / (buf_size as int)
}

/// The buffers of a pool and which are in use.
pub struct BufPool {
    pool_size: u16,
    buf_size: u32,
    /// Bit `i` is set if buffer `i` is in use. The bits beyond `pool_size`
    /// are never handed out.
    available: AtomicBitMap,
}

impl View for BufPool {
    type V = Seq<bool>;

    /// For each buffer, `true` if it's in use.
    closed spec fn view(&self) -> Seq<bool> {
        self.available@.subrange(0, self.pool_size as int)
    }
}

impl BufPool {
    /// The bitmap covers the buffers and the allocation fits in memory.
    pub closed spec fn wf(&self) -> bool {
        &&& self.available@.len() >= self.pool_size
        &&& self.pool_size * self.buf_size <= usize::MAX
    }

    /// Number of buffers.
    pub closed spec fn spec_pool_size(&self) -> u16 {
        self.pool_size
    }

    /// Size of each buffer.
    pub closed spec fn spec_buf_size(&self) -> u32 {
        self.buf_size
    }

    /// A pool of `pool_size` buffers of `buf_size` bytes with pages of
    /// `page_size` bytes, none in use; `None` if the buffers can't be
    /// allocated.
    pub fn new(pool_size: u16, buf_size: u32, page_size: usize) -> (r: Option<BufPool>)
        requires
            page_size > 0,
        ensures
            r is Some <==> spec_allocation_size(pool_size, buf_size, page_size) is Some,
            r matches Some(pool) ==> {
                &&& pool.wf()
                &&& pool.spec_pool_size() == pool_size
                &&& pool.spec_buf_size() == buf_size
                &&& pool@.len() == pool_size
                &&& forall|i: int| 0 <= i < pool_size ==> !#[trigger] pool@[i]
            },
    {
        // Do the layout calculation first in case of an error.
        if allocation_size(pool_size, buf_size, page_size).is_none() {
            return None;
        }
        let available = *AtomicBitMap::new(pool_size as usize);
        proof {
            assert(pool_size * buf_size <= isize::MAX);
        }
        let pool = BufPool { pool_size, buf_size, available };
        proof {
            assert forall|i: int| 0 <= i < pool_size implies !#[trigger] pool@[i] by {
                assert(pool@[i] == pool.available@[i]);
            }
        }
        Some(pool)
    }

    /// Size of each buffer.
    pub fn buf_size(&self) -> (n: usize)
        ensures
            n == self.spec_buf_size(),
    {
        self.buf_size as usize
    }

    /// Claim the lowest buffer not in use, returning its index and offset in
    /// the allocation, or `None` if all are in use.
    pub fn get_buf(&mut self) -> (r: Option<(usize, usize)>)
        requires
            old(self).wf(),
        ensures
            final(self).wf(),
            final(self).spec_pool_size() == old(self).spec_pool_size(),
            final(self).spec_buf_size() == old(self).spec_buf_size(),
            match r {
                Some((id, offset)) => {
                    &&& id < old(self)@.len()
                    &&& !old(self)@[id as int]
                    &&& forall|j: int| 0 <= j < id ==> #[trigger] old(self)@[j]
                    &&& offset == id * old(self).spec_buf_size()
                    &&& final(self)@ == old(self)@.update(id as int, true)
                },
                None => {
                    &&& forall|j: int| 0 <= j < old(self)@.len() ==> #[trigger] old(self)@[j]
                    &&& final(self)@ == old(self)@
                },
            },
    {
        let ghost before = self.available@;
        let pool_size = self.pool_size;
        let buf_size = self.buf_size;
        let claimed = self.available.next_available();
        let result = match claimed {
            Some(id) => {
                if id < pool_size as usize {
                    proof {
                        assert(id * buf_size <= pool_size * buf_size) by (nonlinear_arith)
                            requires
                                id < pool_size,
                        ;
                    }
                    Some((id, id * buf_size as usize))
                } else {
                    // Beyond the buffers: all of them are in use. The bit
                    // stays set, so this index is never handed out again.
                    None
                }
            },
            None => None,
        };
        proof {
            let after = self.available@;
            match claimed {
                Some(id) => {
                    if id < pool_size {
                        assert(after.subrange(0, pool_size as int) =~= before.subrange(
                            0,
                            pool_size as int,
                        ).update(id as int, true));
                    } else {
                        assert(after.subrange(0, pool_size as int) =~= before.subrange(
                            0,
                            pool_size as int,
                        ));
                    }
                },
                None => {
                    assert(after.subrange(0, pool_size as int) =~= before.subrange(0, pool_size as int));
                },
            }
        }
        result
    }

    /// Release the buffer at `offset` in the allocation back to the pool.
    pub fn release(&mut self, offset: usize)
        requires
            old(self).wf(),
            old(self).spec_buf_size() > 0,
            (offset as int) % (old(self).spec_buf_size() as int) == 0,
            buf_index(offset, old(self).spec_buf_size()) < old(self)@.len(),
            old(self)@[buf_index(offset, old(self).spec_buf_size())],
        ensures
            final(self).wf(),
            final(self).spec_pool_size() == old(self).spec_pool_size(),
            final(self).spec_buf_size() == old(self).spec_buf_size(),
            final(self)@ == old(self)@.update(buf_index(offset, old(self).spec_buf_size()), false),
    {
        // The index follows from the offset, the distance to the start of the
        // allocation, and the size of the buffers.
        let id = offset / self.buf_size as usize;
        let ghost before = self.available@;
        let pool_size = self.pool_size;
        self.available.make_available(id);
        proof {
            assert(self.available@.subrange(0, pool_size as int) =~= before.subrange(
                0,
                pool_size as int,
            ).update(id as int, false));
        }
    }
}

/// A buffer handed out and released is available again, and the others are
/// as they were.
pub proof fn lemma_release_after_get(pool: Seq<bool>, id: int, buf_size: int)
    requires
        0 <= id < pool.len(),
        !pool[id],
        buf_size > 0,
    ensures
        (id * buf_size) % buf_size == 0,
        (id * buf_size) / buf_size == id,
        pool.update(id, true).update((id * buf_size) / buf_size, false) == pool,
{
    vstd::arithmetic::div_mod::lemma_mod_multiples_basic(id, buf_size);
    assert(id * buf_size == buf_size * id) by (nonlinear_arith);
    vstd::arithmetic::div_mod::lemma_div_multiples_vanish(id, buf_size);
    assert(pool.update(id, true).update(id, false) =~= pool);
}

} // verus!
