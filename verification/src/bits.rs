use vstd::prelude::*;

verus! {

/// Whether bit `i` of a seat mask is set. A mask has eight bits; no bit
/// beyond them is ever set.
pub open spec fn bit(mask: u8, i: u8) -> bool {
    i < 8 && (mask >> i) & 1 == 1
}

/// The number of set bits among the lowest `n` bits of a mask.
pub open spec fn ones_below(mask: u8, n: nat) -> nat
    decreases n,
{
    if n == 0 {
        0
    } else {
        ones_below(mask, (n - 1) as nat) + if bit(mask, (n - 1) as u8) {
            1nat
        } else {
            0nat
        }
    }
}

/// The number of set bits of a mask.
pub open spec fn popcount(mask: u8) -> nat {
    ones_below(mask, 8)
}

/// The mask with bit `i` set as well.
pub open spec fn with_bit(mask: u8, i: u8) -> u8 {
    mask | (1u8 << i)
}

/// The mask with bit `i` cleared.
pub open spec fn without_bit(mask: u8, i: u8) -> u8 {
    mask & !(1u8 << i)
}

/// The lowest bit from `from` on and below `limit` that is clear, or
/// `limit` where each of them is set.
pub open spec fn first_clear(mask: u8, from: u8, limit: u8) -> u8
    decreases limit - from,
{
    if from >= limit {
        limit
    } else if !bit(mask, from) {
        from
    } else {
        first_clear(mask, (from + 1) as u8, limit)
    }
}

/// Setting a bit changes that bit and no other.
pub proof fn lemma_with_bit(mask: u8, i: u8, j: u8)
    requires
        i < 8,
    ensures
        bit(with_bit(mask, i), j) == (bit(mask, j) || j == i),
{
    if j < 8 {
        assert(((mask | (1u8 << i)) >> j) & 1 == 1 <==> ((mask >> j) & 1 == 1 || j == i))
            by (bit_vector)
            requires
                i < 8,
                j < 8,
        ;
    }
}

/// Clearing a bit changes that bit and no other.
pub proof fn lemma_without_bit(mask: u8, i: u8, j: u8)
    requires
        i < 8,
    ensures
        bit(without_bit(mask, i), j) == (bit(mask, j) && j != i),
{
    if j < 8 {
        assert(((mask & !(1u8 << i)) >> j) & 1 == 1 <==> ((mask >> j) & 1 == 1 && j != i))
            by (bit_vector)
            requires
                i < 8,
                j < 8,
        ;
    }
}

/// Setting a clear bit makes one set bit more.
pub proof fn lemma_ones_with_bit(mask: u8, i: u8, n: nat)
    requires
        i < 8,
        !bit(mask, i),
        n <= 8,
    ensures
        ones_below(with_bit(mask, i), n) == ones_below(mask, n) + if i < n {
            1nat
        } else {
            0nat
        },
    decreases n,
{
    if n > 0 {
        lemma_ones_with_bit(mask, i, (n - 1) as nat);
        lemma_with_bit(mask, i, (n - 1) as u8);
    }
}

/// Clearing a set bit makes one set bit less.
pub proof fn lemma_ones_without_bit(mask: u8, i: u8, n: nat)
    requires
        i < 8,
        bit(mask, i),
        n <= 8,
    ensures
        ones_below(without_bit(mask, i), n) + (if i < n {
            1nat
        } else {
            0nat
        }) == ones_below(mask, n),
    decreases n,
{
    if n > 0 {
        lemma_ones_without_bit(mask, i, (n - 1) as nat);
        lemma_without_bit(mask, i, (n - 1) as u8);
    }
}

/// The count of set bits grows with the number of bits counted, and where
/// the lowest `n` bits are all set it is `n`.
pub proof fn lemma_ones_grow(mask: u8, n: nat, m: nat)
    requires
        n <= m,
    ensures
        ones_below(mask, n) <= ones_below(mask, m),
        (forall|j: u8| j < n ==> bit(mask, j)) && n <= 8 ==> ones_below(mask, n) == n,
    decreases m,
{
    if n < m {
        lemma_ones_grow(mask, n, (m - 1) as nat);
    } else if n > 0 {
        if (forall|j: u8| j < n ==> bit(mask, j)) && n <= 8 {
            assert(bit(mask, (n - 1) as u8));
            lemma_ones_grow(mask, (n - 1) as nat, (n - 1) as nat);
        }
    }
}

/// What `first_clear` finds is clear, every bit that it passed is set, and
/// it finds a bit wherever fewer than `limit` of the bits below `limit` are
/// set.
pub proof fn lemma_first_clear(mask: u8, from: u8, limit: u8)
    requires
        from <= limit <= 8,
    ensures
        from <= first_clear(mask, from, limit) <= limit,
        first_clear(mask, from, limit) < limit ==> !bit(mask, first_clear(mask, from, limit)),
        forall|j: u8| from <= j < first_clear(mask, from, limit) ==> bit(mask, j),
        from == 0 && ones_below(mask, limit as nat) < limit ==> first_clear(mask, from, limit)
            < limit,
    decreases limit - from,
{
    if from < limit && bit(mask, from) {
        lemma_first_clear(mask, (from + 1) as u8, limit);
    }
    if from == 0 && first_clear(mask, from, limit) == limit {
        lemma_ones_grow(mask, limit as nat, limit as nat);
    }
}

/// Sets one bit of a seat mask.
pub fn set_bit(mask: u8, i: u8) -> (r: u8)
    requires
        i < 8,
    ensures
        r == with_bit(mask, i),
{
    mask | (1u8 << i)
}

/// Clears one bit of a seat mask.
pub fn clear_bit(mask: u8, i: u8) -> (r: u8)
    requires
        i < 8,
    ensures
        r == without_bit(mask, i),
{
    mask & !(1u8 << i)
}

/// Finds the lowest clear bit below `limit`.
pub fn lowest_clear(mask: u8, limit: u8) -> (r: u8)
    requires
        limit <= 8,
    ensures
        r == first_clear(mask, 0, limit),
{
    let mut i: u8 = 0;
    while i < limit
        invariant
            i <= limit <= 8,
            first_clear(mask, 0, limit) == first_clear(mask, i, limit),
        decreases limit - i,
    {
        if !bit_is_set(mask, i) {
            return i;
        }
        i += 1;
    }
    i
}

/// Tests one bit of a seat mask.
pub fn bit_is_set(mask: u8, i: u8) -> (r: bool)
    ensures
        r == bit(mask, i),
{
    i < 8 && (mask >> i) & 1 == 1
}

/// Counts the set bits of a seat mask.
pub fn count_ones(mask: u8) -> (n: u8)
    ensures
        n == popcount(mask),
        n <= 8,
{
    let mut n: u8 = 0;
    let mut i: u8 = 0;
    while i < 8
        invariant
            i <= 8,
            n == ones_below(mask, i as nat),
            n <= i,
        decreases 8 - i,
    {
        if (mask >> i) & 1 == 1 {
            n += 1;
        }
        i += 1;
    }
    n
}

} // verus!
