//! Variable sized bitmap used to hand out operation ids.

use vstd::prelude::*;
use vstd::std_specs::bits::{u64_trailing_ones, axiom_u64_trailing_ones};

verus! {

/// Number of indices managed by a single word of the bitmap.
pub const WORD_BITS: usize = 64;

/// Returns true if bit `n` of the word `w` is set.
pub open spec fn bit_of(w: u64, n: u64) -> bool {
    (w >> n) & 1u64 == 1u64
}

/// Number of indices a bitmap for `entries` indices manages: `entries`
/// rounded up to whole words of 64.
pub open spec fn rounded_capacity(entries: int) -> int {
    if entries % 64 == 0 {
        entries
    } else {
        entries - entries % 64 + 64
    }
}

/// Variable sized bitmap.
///
/// A set bit means the index is in use, an unset bit means it's available.
pub struct AtomicBitMap {
    data: Vec<u64>,
}

/// Bit `j` of `v | (1 << i)` is set iff it was set in `v` or `j` is `i`.
proof fn lemma_set_bit(v: u64, i: u64, j: u64)
    requires
        i < 64,
        j < 64,
    ensures
        bit_of(v | (1u64 << i), j) == (bit_of(v, j) || i == j),
{
    assert(((v | (1u64 << i)) >> j) & 1u64 == 1u64 <==> (((v >> j) & 1u64 == 1u64) || i == j))
        by (bit_vector)
        requires
            i < 64,
            j < 64,
    ;
}

/// Bit `j` of `v & !(1 << i)` is set iff it was set in `v` and `j` isn't `i`.
proof fn lemma_clear_bit(v: u64, i: u64, j: u64)
    requires
        i < 64,
        j < 64,
    ensures
        bit_of(v & !(1u64 << i), j) == (bit_of(v, j) && i != j),
{
    assert(((v & !(1u64 << i)) >> j) & 1u64 == 1u64 <==> (((v >> j) & 1u64 == 1u64) && i != j))
        by (bit_vector)
        requires
            i < 64,
            j < 64,
    ;
}

/// No bit of a zero word is set.
proof fn lemma_zero_word(j: u64)
    requires
        j < 64,
    ensures
        !bit_of(0u64, j),
{
    assert((0u64 >> j) & 1u64 != 1u64) by (bit_vector);
}

impl View for AtomicBitMap {
    type V = Seq<bool>;

    /// Index `k` maps to bit `k % 64` of word `k / 64`; `true` means in use.
    closed spec fn view(&self) -> Seq<bool> {
        Seq::new(
            (self.data@.len() * 64) as nat,
            |k: int| bit_of(self.data@[k / 64], (k % 64) as u64),
        )
    }
}

impl AtomicBitMap {
    #[verifier::type_invariant]
    spec fn inv(&self) -> bool {
        self.data@.len() * 64 <= usize::MAX
    }

    /// The words of the bitmap, from the lowest indices to the highest.
    pub closed spec fn spec_words(&self) -> Seq<u64> {
        self.data@
    }

    proof fn lemma_view(&self)
        ensures
            self@.len() == self.data@.len() * 64,
            forall|k: int|
                0 <= k < self@.len() ==> #[trigger] self@[k] == bit_of(
                    self.data@[k / 64],
                    (k % 64) as u64,
                ),
    {
    }

    /// Create a new `AtomicBitMap` able to manage at least `entries` indices,
    /// all of them available.
    pub fn new(entries: usize) -> (map: Box<AtomicBitMap>)
        requires
            entries + 63 <= usize::MAX,
        ensures
            map@.len() == rounded_capacity(entries as int),
            forall|k: int| 0 <= k < map@.len() ==> !#[trigger] map@[k],
    {
        let mut size = entries / WORD_BITS;
        if (entries % WORD_BITS) != 0 {
            size += 1;
        }
        let mut data: Vec<u64> = Vec::with_capacity(size);
        while data.len() < size
            invariant
                data.len() <= size,
                size * 64 <= usize::MAX,
                forall|i: int| 0 <= i < data@.len() ==> data@[i] == 0u64,
            decreases size - data.len(),
        {
            data.push(0u64);
        }
        let map = AtomicBitMap { data };
        proof {
            map.lemma_view();
            assert forall|k: int| 0 <= k < map@.len() implies !#[trigger] map@[k] by {
                lemma_zero_word((k % 64) as u64);
            }
        }
        Box::new(map)
    }

    /// Returns the number of indices the bitmap can manage.
    pub fn capacity(&self) -> (n: usize)
        ensures
            n == self@.len(),
    {
        proof {
            use_type_invariant(self);
        }
        self.data.len() * WORD_BITS
    }

    /// Returns the words of the bitmap.
    pub fn words(&self) -> (w: &[u64])
        ensures
            w@ == self.spec_words(),
            w@.len() * 64 == self@.len(),
            forall|k: int| 0 <= k < self@.len() ==> #[trigger] self@[k] == bit_of(w@[k / 64], (k % 64) as u64),
    {
        self.data.as_slice()
    }

    /// Claims the lowest available index, returning it, or `None` if all
    /// indices are in use.
    pub fn next_available(&mut self) -> (r: Option<usize>)
        ensures
            match r {
                Some(i) => {
                    &&& i < old(self)@.len()
                    &&& !old(self)@[i as int]
                    &&& forall|j: int| 0 <= j < i ==> #[trigger] old(self)@[j]
                    &&& final(self)@ == old(self)@.update(i as int, true)
                },
                None => {
                    &&& forall|j: int| 0 <= j < old(self)@.len() ==> #[trigger] old(self)@[j]
                    &&& final(self)@ == old(self)@
                },
            },
    {
        proof {
            use_type_invariant(&*self);
            broadcast use axiom_u64_trailing_ones;
        }
        let n = self.data.len();
        let mut idx: usize = 0;
        while idx < n
            invariant
                n == self.data@.len(),
                n * 64 <= usize::MAX,
                idx <= n,
                self.data@ == old(self).data@,
                forall|j: int| 0 <= j < idx * 64 ==> #[trigger] old(self)@[j],
            decreases n - idx,
        {
            let value = self.data[idx];
            let i = value.trailing_ones();
            if i < 64 {
                let ghost before = self.data@;
                let new_value = value | (1u64 << i);
                self.set_word(idx, new_value);
                let r = idx * WORD_BITS + i as usize;
                proof {
                    old(self).lemma_view();
                    self.lemma_view();
                    assert(self.data@ == before.update(idx as int, new_value));
                    assert(!old(self)@[r as int]) by {
                        assert(r as int / 64 == idx as int);
                        assert(r as int % 64 == i as int);
                    }
                    assert forall|j: int| 0 <= j < r implies #[trigger] old(self)@[j] by {
                        if j >= idx * 64 {
                            assert(j / 64 == idx as int);
                            assert(j % 64 == j - idx * 64);
                            let jj = (j % 64) as u64;
                            assert((value >> jj) & 1u64 == 1u64);
                        }
                    }
                    assert forall|k: int| 0 <= k < self@.len() implies #[trigger] self@[k]
                        == old(self)@.update(r as int, true)[k] by {
                        if k / 64 == idx as int {
                            lemma_set_bit(value, i as u64, (k % 64) as u64);
                        }
                    }
                    assert(self@ =~= old(self)@.update(r as int, true));
                }
                return Some(r);
            }
            proof {
                old(self).lemma_view();
                assert forall|j: int| 0 <= j < (idx + 1) * 64 implies #[trigger] old(self)@[j] by {
                    if j >= idx * 64 {
                        assert(j / 64 == idx as int);
                        let jj = (j % 64) as u64;
                        assert((value >> jj) & 1u64 == 1u64);
                    }
                }
            }
            idx += 1;
        }
        proof {
            assert(self@ =~= old(self)@);
        }
        None
    }

    /// Replaces word `idx` with `value`.
    fn set_word(&mut self, idx: usize, value: u64)
        requires
            idx < old(self).data@.len(),
        ensures
            final(self).data@ == old(self).data@.update(idx as int, value),
    {
        proof {
            use_type_invariant(&*self);
        }
        let mut data: Vec<u64> = Vec::new();
        std::mem::swap(&mut data, &mut self.data);
        data.set(idx, value);
        std::mem::swap(&mut data, &mut self.data);
    }

    /// Mark `index` as available. The index must be in use.
    pub fn make_available(&mut self, index: usize)
        requires
            index < old(self)@.len(),
            old(self)@[index as int],
        ensures
            final(self)@ == old(self)@.update(index as int, false),
    {
        proof {
            use_type_invariant(&*self);
            old(self).lemma_view();
        }
        let idx = index / WORD_BITS;
        let n = index % WORD_BITS;
        let value = self.data[idx];
        let new_value = value & !(1u64 << n);
        self.set_word(idx, new_value);
        proof {
            self.lemma_view();
            assert forall|k: int| 0 <= k < self@.len() implies #[trigger] self@[k]
                == old(self)@.update(index as int, false)[k] by {
                if k / 64 == idx as int {
                    lemma_clear_bit(value, n as u64, (k % 64) as u64);
                }
            }
            assert(self@ =~= old(self)@.update(index as int, false));
        }
    }
}

/// An index made available again while all lower indices are in use is the
/// next one [`AtomicBitMap::next_available`] hands out: `r` is what it hands
/// out after [`AtomicBitMap::make_available`] of `index` on a bitmap `map`.
pub proof fn lemma_released_index_is_next(map: Seq<bool>, index: int, r: Option<usize>)
    requires
        0 <= index < map.len(),
        forall|j: int| 0 <= j < index ==> #[trigger] map[j],
        match r {
            Some(i) => {
                &&& i < map.len()
                &&& !map.update(index, false)[i as int]
                &&& forall|j: int| 0 <= j < i ==> #[trigger] map.update(index, false)[j]
            },
            None => forall|j: int| 0 <= j < map.len() ==> #[trigger] map.update(index, false)[j],
        },
    ensures
        r == Some(index as usize),
{
    let after = map.update(index, false);
    match r {
        Some(i) => {
            if (i as int) < index {
                assert(map[i as int]);
            } else if (i as int) > index {
                assert(after[index]);
            }
        },
        None => {
            assert(after[index]);
        },
    }
}

/// Returns true if bit `n` is unset in `value`. `n` is zero indexed, i.e. must
/// be in the range 0..64.
pub fn is_unset(value: u64, n: usize) -> (r: bool)
    requires
        n < 64,
    ensures
        r == !bit_of(value, n as u64),
{
    let shift = n as u64;
    let r = ((value >> shift) & 1) == 0;
    assert(r == !bit_of(value, shift)) by (bit_vector)
        requires
            r == (((value >> shift) & 1) == 0),
    ;
    r
}

} // verus!
