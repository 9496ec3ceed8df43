//! Capacity and mask arithmetic.
//!
//! A ring allocates a power-of-two number of slots and masks counters with
//! `size - 1` to find a slot.  Without exact sizing the requested count must
//! itself be a power of two and one slot stays unusable, so the usable
//! capacity is `count - 1`.  With exact sizing the allocation is rounded up to
//! the least power of two strictly greater than the requested count and the
//! usable capacity is exactly `count`.

use vstd::prelude::*;

use crate::errors::RingError;
use crate::wrap::is_pow2;

verus! {

/// Largest value a ring size may take: sizes are powers of two no greater
/// than this, so at most 2^30.
pub const RING_SZ_MASK: u32 = 0x7fff_ffff;

/// The requested count admits a ring: nonzero, representable, and a power of
/// two when exact sizing is off.
pub open spec fn spec_count_ok(count: u32, exact: bool) -> bool {
    if exact {
        1 <= count <= 0x3fff_ffff
    } else {
        is_pow2(count) && count <= RING_SZ_MASK
    }
}

/// The usable capacity a valid request yields.
pub open spec fn spec_usable_capacity(count: u32, exact: bool) -> u32 {
    if exact {
        count
    } else {
        (count - 1) as u32
    }
}

/// Allocated slot count, index mask and usable capacity of one ring.
#[derive(Clone, Copy, Debug, PartialEq, Eq, Structural)]
pub struct RingGeometry {
    /// Number of allocated slots; a power of two.
    pub size: u32,
    /// `size - 1`; a counter AND this mask is a slot index.
    pub mask: u32,
    /// Number of entries the ring can hold at once; less than `size`.
    pub capacity: u32,
}

impl RingGeometry {
    /// The three fields fit together and stay inside the ranges the ring's
    /// index arithmetic relies on.
    pub open spec fn wf(self) -> bool {
        &&& is_pow2(self.size)
        &&& self.size <= 0x4000_0000
        &&& self.mask == self.size - 1
        &&& self.capacity <= self.mask
    }
}

/// Least power of two that is at least `v`.
fn next_pow2(v: u32) -> (p: u32)
    requires
        1 <= v <= 0x4000_0000,
    ensures
        is_pow2(p),
        p >= v,
        p / 2 < v,
        p <= 0x4000_0000,
{
    let mut p: u32 = 1;
    proof {
        assert(1u32 & 0u32 == 0) by (bit_vector);
    }
    while p < v
        invariant
            1 <= v <= 0x4000_0000,
            1 <= p <= 0x4000_0000,
            is_pow2(p),
            p / 2 < v,
        decreases 2 * v - p,
    {
        proof {
            assert(p & ((p - 1) as u32) == 0 && 1 <= p < 0x4000_0000 ==> p <= 0x2000_0000)
                by (bit_vector);
            assert(is_pow2((2 * p) as u32) && (2 * p) as u32 / 2 == p) by (bit_vector)
                requires
                    p & ((p - 1) as u32) == 0 && 1 <= p <= 0x2000_0000,
            ;
        }
        p = p * 2;
    }
    p
}

/// Turns a requested count and the exact-sizing choice into the ring's
/// geometry.  Rejects a zero count, a count too large to represent, and —
/// when exact sizing is off — a count that is not a power of two.
pub fn calc_geometry(count: u32, exact: bool) -> (r: Result<RingGeometry, RingError>)
    ensures
        r is Ok <==> spec_count_ok(count, exact),
        r matches Ok(g) ==> {
            &&& g.wf()
            &&& g.capacity == spec_usable_capacity(count, exact)
            &&& (exact ==> g.size >= count + 1 && g.size / 2 <= count)
            &&& (!exact ==> g.size == count)
        },
        r is Err ==> r == Err::<RingGeometry, RingError>(RingError::InvalidConfig),
{
    if count == 0 {
        return Err(RingError::InvalidConfig);
    }
    if exact {
        // One slot more than requested is needed, rounded up to a power of
        // two; in the worst case (a power-of-two request) half the allocated
        // slots go unused.
        if count > 0x3fff_ffff {
            return Err(RingError::InvalidConfig);
        }
        let size = next_pow2(count + 1);
        Ok(RingGeometry { size, mask: size - 1, capacity: count })
    } else {
        if count > RING_SZ_MASK || (count & (count - 1)) != 0 {
            return Err(RingError::InvalidConfig);
        }
        proof {
            assert(count & ((count - 1) as u32) == 0 && 1 <= count <= 0x7fff_ffff ==> count
                <= 0x4000_0000) by (bit_vector);
        }
        Ok(RingGeometry { size: count, mask: count - 1, capacity: count - 1 })
    }
}

} // verus!
