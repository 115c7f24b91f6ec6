//! Enumeration of the set bits of a bitboard.
use vstd::prelude::*;
use vstd::std_specs::bits::axiom_u64_trailing_zeros;

verus! {

/// Whether bit `i` of `x` is set.
pub open spec fn bit_set(x: u64, i: int) -> bool {
    0 <= i < 64 && (x >> (i as u64)) & 1u64 == 1u64
}

/// The positions below `k` of the set bits of `x`, in increasing order.
pub open spec fn set_bits_below(x: u64, k: int) -> Seq<int>
    decreases k,
{
    if k <= 0 {
        Seq::empty()
    } else if bit_set(x, k - 1) {
        set_bits_below(x, k - 1).push(k - 1)
    } else {
        set_bits_below(x, k - 1)
    }
}

/// The positions of the set bits of `x`, from least to most significant.
pub open spec fn set_bits(x: u64) -> Seq<int> {
    set_bits_below(x, 64)
}

proof fn lemma_clear_lowest_bit(x: u64, t: u64, j: u64) by (bit_vector)
    requires
        x != 0,
        t < 64,
        j < 64,
        x << vstd::prelude::sub(64, t) == 0,
        (x >> t) & 1u64 == 1u64,
    ensures
        j == t ==> ((x & vstd::prelude::sub(x, 1)) >> j) & 1u64 == 0u64,
        j != t ==> ((x & vstd::prelude::sub(x, 1)) >> j) & 1u64 == (x >> j) & 1u64,
        j < t ==> (x >> j) & 1u64 == 0u64,
{
}

proof fn lemma_zero_bits(k: int)
    requires
        k <= 64,
    ensures
        set_bits_below(0u64, k) =~= Seq::<int>::empty(),
    decreases k,
{
    if k > 0 {
        let kk = (k - 1) as u64;
        assert((0u64 >> kk) & 1u64 == 0u64) by (bit_vector);
        lemma_zero_bits(k - 1);
    }
}

proof fn lemma_set_bits_range(x: u64, k: int)
    requires
        k <= 64,
    ensures
        forall|i: int| 0 <= i < set_bits_below(x, k).len() ==> 0 <= #[trigger] set_bits_below(x, k)[i] < 64,
    decreases k,
{
    if k > 0 {
        lemma_set_bits_range(x, k - 1);
        let prev = set_bits_below(x, k - 1);
        assert forall|i: int| 0 <= i < set_bits_below(x, k).len() implies 0 <= #[trigger] set_bits_below(x, k)[i] < 64 by {
            if i < prev.len() {
                assert(set_bits_below(x, k)[i] == prev[i]);
            }
        }
    }
}

/// Splits off the lowest set bit: the rest are the set bits of `x & (x - 1)`.
proof fn lemma_set_bits_step(x: u64)
    requires
        x != 0,
    ensures
        (x.trailing_zeros() as int) < 64,
        set_bits(x) =~= seq![x.trailing_zeros() as int] + set_bits(x & ((x - 1) as u64)),
{
    assert(vstd::prelude::sub(x, 1) == (x - 1) as u64);
    axiom_u64_trailing_zeros(x);
    let t = x.trailing_zeros() as u64;
    let y = x & vstd::prelude::sub(x, 1);
    assert forall|j: int| 0 <= j < 64 implies
        (#[trigger] bit_set(y, j) == (bit_set(x, j) && j != t))
        && (j < t ==> !bit_set(x, j)) by {
        lemma_clear_lowest_bit(x, t, j as u64);
    }
    lemma_step_below(x, y, t as int, 64);
}

proof fn lemma_step_below(x: u64, y: u64, t: int, k: int)
    requires
        0 <= t < 64,
        0 <= k <= 64,
        bit_set(x, t),
        forall|j: int| 0 <= j < 64 ==> (#[trigger] bit_set(y, j) == (bit_set(x, j) && j != t)) && (
        j < t ==> !bit_set(x, j)),
    ensures
        k <= t ==> set_bits_below(x, k) =~= Seq::<int>::empty() && set_bits_below(y, k)
            =~= Seq::<int>::empty(),
        k > t ==> set_bits_below(x, k) =~= seq![t] + set_bits_below(y, k),
    decreases k,
{
    if k > 0 {
        lemma_step_below(x, y, t, k - 1);
        assert(bit_set(y, k - 1) == (bit_set(x, k - 1) && k - 1 != t));
    }
}

/// The set bits of a `u64`, handed out one at a time from least to most
/// significant.
#[derive(Debug)]
pub struct BitIter {
    left: u64,
}

impl BitIter {
    /// The positions that are still to come.
    pub closed spec fn view(&self) -> Seq<int> {
        set_bits(self.left)
    }

    /// An enumeration of the set bits of `left`.
    pub fn new(left: u64) -> (r: BitIter)
        ensures
            r@ == set_bits(left),
    {
        BitIter { left }
    }

    /// The next set bit, or `None` once all have been handed out.
    pub fn next(&mut self) -> (r: Option<u8>)
        ensures
            old(self)@.len() == 0 ==> r.is_none() && final(self)@ == old(self)@,
            old(self)@.len() > 0 ==> r == Some(old(self)@[0] as u8) && final(self)@
                == old(self)@.drop_first(),
    {
        if self.left == 0 {
            proof { lemma_zero_bits(64); }
            None
        } else {
            proof { lemma_set_bits_step(self.left); }
            let index = self.left.trailing_zeros() as u8;
            self.left = self.left & (self.left - 1);
            Some(index)
        }
    }

    /// All the positions that are still to come, in order.
    pub fn collect_all(&mut self) -> (r: Vec<u8>)
        ensures
            r@.len() == old(self)@.len(),
            forall|i: int| 0 <= i < r@.len() ==> r@[i] as int == #[trigger] old(self)@[i],
            final(self)@.len() == 0,
    {
        let mut r: Vec<u8> = Vec::new();
        let ghost all = self@;
        loop
            invariant
                all =~= r@.map_values(|b: u8| b as int) + self@,
            ensures
                self@.len() == 0,
                all =~= r@.map_values(|b: u8| b as int),
            decreases self@.len(),
        {
            let ghost before = self@;
            let ghost before_left = self.left;
            match self.next() {
                Some(b) => {
                    let ghost old_r = r@;
                    r.push(b);
                    proof {
                        lemma_set_bits_range(before_left, 64);
                        assert(b as int == before[0]);
                        assert(r@.map_values(|b: u8| b as int) =~= old_r.map_values(|b: u8| b as int).push(b as int));
                        assert(before.len() > 0);
                        assert(before =~= seq![before[0]] + before.drop_first());
                    }
                },
                None => {
                    proof {
                        assert(self@ =~= Seq::<int>::empty());
                    }
                    break;
                },
            }
        }
        proof {
            assert forall|i: int| 0 <= i < r@.len() implies r@[i] as int == #[trigger] all[i] by {
                assert(all[i] == r@.map_values(|b: u8| b as int)[i]);
            }
        }
        r
    }
}

/// The position of the set bit of `x` that has exactly `n` set bits below it.
pub fn get_nth_set_bit(x: u64, n: u32) -> (r: u8)
    requires
        (n as int) < set_bits(x).len(),
    ensures
        r as int == set_bits(x)[n as int],
{
    let mut cur: u64 = x;
    let mut i: u32 = 0;
    while i < n
        invariant
            i <= n,
            (n as int) < set_bits(x).len(),
            set_bits(cur) =~= set_bits(x).subrange(i as int, set_bits(x).len() as int),
        decreases n - i,
    {
        proof {
            if cur == 0 {
                lemma_zero_bits(64);
            }
            lemma_set_bits_step(cur);
        }
        let ghost prev = cur;
        cur = cur & (cur - 1);
        assert(cur == prev & ((prev - 1) as u64));
        assert(set_bits(cur) =~= set_bits(prev).drop_first());
        i = i + 1;
    }
    proof {
        if cur == 0 {
            lemma_zero_bits(64);
        }
        lemma_set_bits_step(cur);
        assert(set_bits(cur)[0] == set_bits(x)[n as int]);
    }
    cur.trailing_zeros() as u8
}

} // verus!
