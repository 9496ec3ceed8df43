//! Wrapping 32-bit index arithmetic.
//!
//! The ring's four counters increase monotonically and wrap modulo 2^32; a
//! counter is turned into a slot index by masking with `size - 1` where `size`
//! is a power of two.  Because every power-of-two size divides 2^32 evenly,
//! masking a wrapped counter lands on the same slot as masking the unbounded
//! counter would.  This module defines the wrapped addition and distance used
//! by the specifications and proves the facts about them that the ring's
//! functional correctness rests on.

use vstd::prelude::*;

verus! {

/// Wrapped sum `a + b (mod 2^32)`, mirroring `u32::wrapping_add`.
pub open spec fn wadd(a: u32, b: u32) -> u32 {
    if a + b > u32::MAX {
        (a + b - 0x1_0000_0000) as u32
    } else {
        (a + b) as u32
    }
}

/// Wrapped distance from `b` up to `a` (mod 2^32), mirroring `u32::wrapping_sub`.
pub open spec fn wsub(a: u32, b: u32) -> u32 {
    if a - b < 0 {
        (a - b + 0x1_0000_0000) as u32
    } else {
        (a - b) as u32
    }
}

/// `s` is a power of two.
pub open spec fn is_pow2(s: u32) -> bool {
    s >= 1 && s & ((s - 1) as u32) == 0
}

/// Adding the wrapped distance from `c` to `p` back onto `c` reaches `p`.
pub proof fn lemma_wadd_of_wsub(p: u32, c: u32)
    by (bit_vector)
    ensures
        wadd(c, wsub(p, c)) == p,
{
}

/// Advancing a counter grows the wrapped distance to a fixed base, as long as
/// the grown distance still fits in 32 bits.
pub proof fn lemma_dist_grows(p: u32, c: u32, n: u32)
    by (bit_vector)
    requires
        wsub(p, c) + n <= u32::MAX,
    ensures
        wsub(wadd(p, n), c) == (wsub(p, c) + n) as u32,
{
}

/// Advancing the base shrinks the wrapped distance to a fixed counter.
pub proof fn lemma_dist_shrinks(p: u32, c: u32, n: u32)
    by (bit_vector)
    requires
        n <= wsub(p, c),
    ensures
        wsub(p, wadd(c, n)) == (wsub(p, c) - n) as u32,
{
}

/// Wrapped addition is associative.
pub proof fn lemma_wadd_assoc(c: u32, a: u32, b: u32)
    by (bit_vector)
    ensures
        wadd(wadd(c, a), b) == wadd(c, wadd(a, b)),
{
}

/// Masking keeps an index below the slot count.
pub proof fn lemma_mask_bounds(x: u32, m: u32)
    by (bit_vector)
    ensures
        x & m <= m,
{
}

/// Two counters whose offsets from a common base both lie inside one
/// power-of-two window land on distinct slots.  This is what makes the
/// committed region and a fresh reservation occupy disjoint slots.
pub proof fn lemma_masked_offsets_distinct(c: u32, a: u32, b: u32, m: u32)
    by (bit_vector)
    requires
        is_pow2((m + 1) as u32),
        a <= m,
        b <= m,
        a != b,
    ensures
        wadd(c, a) & m != wadd(c, b) & m,
{
}

} // verus!
