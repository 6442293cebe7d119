//! Bookkeeping of the buffers used in reading and writing.
//!
//! Vectored I/O spreads the bytes of one read or write over several buffers,
//! filling them in order. The functions here compute how many bytes each
//! buffer gets.

use vstd::prelude::*;
use vstd::string::StringSliceAdditionalSpecFns;

verus! {

/// Id for a [`ReadBufPool`].
///
/// [`ReadBufPool`]: crate::io::read_buf::ReadBufPool
#[derive(Copy, Clone, Debug, PartialEq, Eq)]
pub struct BufGroupId(pub u16);

/// Index of a buffer in a [`ReadBufPool`].
///
/// [`ReadBufPool`]: crate::io::read_buf::ReadBufPool
#[derive(Copy, Clone, Debug, PartialEq, Eq)]
pub struct BufId(pub u16);

/// Sum of the first `i` lengths.
pub open spec fn prefix_sum(lens: Seq<usize>, i: int) -> int
    decreases i,
{
    if i <= 0 {
        0
    } else {
        prefix_sum(lens, i - 1) + lens[i - 1]
    }
}

/// Sum of all lengths.
pub open spec fn total(lens: Seq<usize>) -> int {
    prefix_sum(lens, lens.len() as int)
}

/// Number of bytes buffer `i` gets when `n` bytes are spread over buffers
/// with room for `lens` bytes, filling them in order.
pub open spec fn share(lens: Seq<usize>, n: int, i: int) -> int {
    let left = n - prefix_sum(lens, i);
    if left <= 0 {
        0
    } else if left < lens[i] {
        left
    } else {
        lens[i] as int
    }
}

/// Prefix sums never decrease and never exceed the total.
pub proof fn lemma_prefix_sum_bounds(lens: Seq<usize>, i: int, j: int)
    requires
        0 <= i <= j <= lens.len(),
    ensures
        0 <= prefix_sum(lens, i) <= prefix_sum(lens, j) <= total(lens),
{
    lemma_prefix_sum_nonneg(lens, i);
    lemma_prefix_sum_mono(lens, i, j);
    lemma_prefix_sum_mono(lens, j, lens.len() as int);
}

proof fn lemma_prefix_sum_mono(lens: Seq<usize>, i: int, j: int)
    requires
        0 <= i <= j,
    ensures
        prefix_sum(lens, i) <= prefix_sum(lens, j),
    decreases j - i,
{
    if i < j {
        lemma_prefix_sum_mono(lens, i, j - 1);
    }
}

proof fn lemma_prefix_sum_nonneg(lens: Seq<usize>, i: int)
    ensures
        prefix_sum(lens, i) >= 0,
    decreases i,
{
    if i > 0 {
        lemma_prefix_sum_nonneg(lens, i - 1);
    }
}

/// Copies up to `dst_len` bytes of `src` to the end of `dst`, i.e. it won't
/// write beyond `dst_len` or read beyond `src`. Returns the number of bytes
/// copied.
pub fn copy_bytes(dst: &mut Vec<u8>, dst_len: usize, src: &[u8]) -> (n: usize)
    ensures
        n == (if src@.len() < dst_len { src@.len() as int } else { dst_len as int }),
        final(dst)@ == old(dst)@ + src@.subrange(0, n as int),
{
    let len = if src.len() < dst_len { src.len() } else { dst_len };
    let mut i: usize = 0;
    while i < len
        invariant
            i <= len,
            len <= src@.len(),
            dst@ == old(dst)@ + src@.subrange(0, i as int),
        decreases len - i,
    {
        dst.push(src[i]);
        i += 1;
        assert(dst@ =~= old(dst)@ + src@.subrange(0, i as int));
    }
    len
}

/// Mark `n` bytes as initialised in buffers with room for `lens` bytes: the
/// first buffers are filled completely, the next gets the rest. Returns the
/// number of bytes for each buffer.
///
/// There must be at least one buffer and room for all `n` bytes.
pub fn init_split(lens: &[usize], n: usize) -> (shares: Vec<usize>)
    requires
        lens@.len() > 0,
        n <= total(lens@),
    ensures
        shares@.len() == lens@.len(),
        forall|i: int| 0 <= i < lens@.len() ==> #[trigger] shares@[i] == share(lens@, n as int, i),
{
    let mut shares: Vec<usize> = Vec::new();
    let mut left = n;
    let mut done = false;
    let mut i: usize = 0;
    while i < lens.len()
        invariant
            i <= lens@.len(),
            shares@.len() == i,
            done ==> left == 0 && n <= prefix_sum(lens@, i as int),
            !done ==> left == n - prefix_sum(lens@, i as int),
            forall|j: int| 0 <= j < i ==> #[trigger] shares@[j] == share(lens@, n as int, j),
            n <= total(lens@),
        decreases lens@.len() - i,
    {
        proof {
            lemma_prefix_sum_bounds(lens@, i as int, i as int + 1);
        }
        let len = lens[i];
        if done {
            shares.push(0);
        } else if len < left {
            // Fully initialised the buffer.
            shares.push(len);
            left -= len;
        } else {
            // Partially initialised the buffer.
            shares.push(left);
            left = 0;
            done = true;
        }
        i += 1;
    }
    proof {
        if !done {
            assert(prefix_sum(lens@, i as int) == total(lens@));
        }
    }
    shares
}

/// Copy as much of `len` bytes as fits in buffers with room for `lens`
/// bytes, filling them in order. Returns the number of bytes copied into each
/// buffer and the total number of bytes copied.
pub fn extend_split(lens: &[usize], len: usize) -> (r: (Vec<usize>, usize))
    ensures
        r.0@.len() == lens@.len(),
        forall|i: int| 0 <= i < lens@.len() ==> #[trigger] r.0@[i] == share(lens@, len as int, i),
        r.1 == (if len < total(lens@) { len as int } else { total(lens@) }),
{
    let mut shares: Vec<usize> = Vec::new();
    let mut left = len;
    let mut i: usize = 0;
    while i < lens.len()
        invariant
            i <= lens@.len(),
            shares@.len() == i,
            left == (if len < prefix_sum(lens@, i as int) {
                0
            } else {
                len - prefix_sum(lens@, i as int)
            }),
            forall|j: int| 0 <= j < i ==> #[trigger] shares@[j] == share(lens@, len as int, j),
        decreases lens@.len() - i,
    {
        proof {
            lemma_prefix_sum_bounds(lens@, i as int, i as int + 1);
        }
        let n = if lens[i] < left { lens[i] } else { left };
        shares.push(n);
        left -= n;
        i += 1;
    }
    proof {
        lemma_prefix_sum_bounds(lens@, 0, lens@.len() as int);
    }
    (shares, len - left)
}

/// Where the bytes for buffer `i` start when `len` bytes are spread over
/// buffers with room for `lens` bytes, filling them in order.
pub open spec fn share_start(lens: Seq<usize>, len: int, i: int) -> int {
    if prefix_sum(lens, i) < len {
        prefix_sum(lens, i)
    } else {
        len
    }
}

/// Extend the buffers `bufs`, which have room for `rooms` more bytes each,
/// with `bytes`: the first buffers are filled before the next gets any, as
/// far as there is room. Returns the total number of bytes copied.
pub fn extend_from_slice(bufs: &mut Vec<Vec<u8>>, rooms: &[usize], bytes: &[u8]) -> (n: usize)
    requires
        old(bufs)@.len() == rooms@.len(),
    ensures
        n == (if bytes@.len() < total(rooms@) { bytes@.len() as int } else { total(rooms@) }),
        final(bufs)@.len() == old(bufs)@.len(),
        forall|i: int|
            0 <= i < rooms@.len() ==> #[trigger] final(bufs)@[i]@ == old(bufs)@[i]@ + bytes@.subrange(
                share_start(rooms@, bytes@.len() as int, i),
                share_start(rooms@, bytes@.len() as int, i) + share(rooms@, bytes@.len() as int, i),
            ),
{
    let ghost len = bytes@.len() as int;
    let mut pos: usize = 0;
    let mut i: usize = 0;
    while i < bufs.len()
        invariant
            i <= bufs@.len(),
            bufs@.len() == rooms@.len(),
            old(bufs)@.len() == rooms@.len(),
            len == bytes@.len(),
            pos == share_start(rooms@, len, i as int),
            forall|j: int|
                0 <= j < i ==> #[trigger] bufs@[j]@ == old(bufs)@[j]@ + bytes@.subrange(
                    share_start(rooms@, len, j),
                    share_start(rooms@, len, j) + share(rooms@, len, j),
                ),
            forall|j: int| i <= j < bufs@.len() ==> #[trigger] bufs@[j] == old(bufs)@[j],
        decreases bufs@.len() - i,
    {
        proof {
            lemma_prefix_sum_bounds(rooms@, 0, i as int);
        }
        let mut buf: Vec<u8> = Vec::new();
        std::mem::swap(&mut buf, &mut bufs[i]);
        let ghost before = buf@;
        let room = rooms[i];
        let blen = bytes.len();
        let left = blen - pos;
        let n = if room < left { room } else { left };
        let mut k: usize = 0;
        while k < n
            invariant
                k <= n,
                blen == bytes@.len(),
                pos + n <= blen,
                buf@ == before + bytes@.subrange(pos as int, pos + k),
            decreases n - k,
        {
            buf.push(bytes[pos + k]);
            k += 1;
            assert(buf@ =~= before + bytes@.subrange(pos as int, pos + k));
        }
        bufs.set(i, buf);
        pos = pos + n;
        i += 1;
    }
    proof {
        lemma_prefix_sum_bounds(rooms@, 0, rooms@.len() as int);
    }
    pos
}

/// Copying bytes into buffers spreads them over the buffers the same way
/// marking the copied number of bytes as initialised does.
pub proof fn lemma_extend_then_init(lens: Seq<usize>, len: int, i: int)
    requires
        0 <= len,
        0 <= i < lens.len(),
    ensures
        share(lens, len, i) == share(lens, if len < total(lens) { len } else { total(lens) }, i),
{
    lemma_prefix_sum_bounds(lens, i, i + 1);
    lemma_prefix_sum_bounds(lens, i + 1, lens.len() as int);
}

/// Returns the total length of all buffers in bytes.
pub fn total_len(lens: &[usize]) -> (n: usize)
    requires
        total(lens@) <= usize::MAX,
    ensures
        n == total(lens@),
{
    let mut sum: usize = 0;
    let mut i: usize = 0;
    while i < lens.len()
        invariant
            i <= lens@.len(),
            sum == prefix_sum(lens@, i as int),
            total(lens@) <= usize::MAX,
        decreases lens@.len() - i,
    {
        proof {
            lemma_prefix_sum_bounds(lens@, i as int + 1, lens@.len() as int);
        }
        sum = sum + lens[i];
        i += 1;
    }
    sum
}

/// Number of bytes left in a buffer of `size` bytes when the first `skip`
/// bytes are skipped.
pub fn skip_len(size: u32, skip: u32) -> (n: u32)
    ensures
        n == (if skip >= size { 0 } else { size - skip }),
{
    if skip >= size {
        0
    } else {
        size - skip
    }
}

/// Buffer using static data, such as `&'static [u8]` and `&'static str`.
#[derive(Copy, Clone, Debug)]
pub struct StaticBuf(pub &'static [u8]);

impl View for StaticBuf {
    type V = Seq<u8>;

    /// The bytes of the buffer.
    closed spec fn view(&self) -> Seq<u8> {
        self.0@
    }
}

impl StaticBuf {
    /// A buffer of the bytes of `buf`.
    pub fn from_static_str(buf: &'static str) -> (b: StaticBuf)
        ensures
            b@ == buf.spec_bytes(),
    {
        StaticBuf(buf.as_bytes())
    }

    /// Number of bytes in the buffer.
    pub fn len(&self) -> (n: usize)
        ensures
            n == self@.len(),
    {
        self.0.len()
    }

    /// Returns true if the buffer holds no bytes.
    pub fn is_empty(&self) -> (r: bool)
        ensures
            r == (self@.len() == 0),
    {
        self.0.len() == 0
    }

    /// The bytes of the buffer.
    pub fn as_slice(&self) -> (s: &'static [u8])
        ensures
            s@ == self@,
    {
        self.0
    }
}

impl From<&'static [u8]> for StaticBuf {
    fn from(buf: &'static [u8]) -> (b: StaticBuf) {
        StaticBuf(buf)
    }
}

impl vstd::std_specs::convert::FromSpecImpl<&'static [u8]> for StaticBuf {
    open spec fn obeys_from_spec() -> bool {
        true
    }

    open spec fn from_spec(v: &'static [u8]) -> StaticBuf {
        StaticBuf(v)
    }
}

} // verus!
