//! Ring configuration: creation flags and the per-side synchronization modes
//! they select.

use vstd::prelude::*;

verus! {

/// Flag bits accepted at ring creation, combined by OR-ing `bits` values.
///
/// One producer flag at most may be set: `SP_ENQ` selects a single producer,
/// `MP_RTS_ENQ` multi-producer relaxed tail sync, `MP_HTS_ENQ` multi-producer
/// head/tail sync; with none of them set the producer side uses the plain
/// multi-producer compare-and-swap discipline.  The consumer flags `SC_DEQ`,
/// `MC_RTS_DEQ` and `MC_HTS_DEQ` mirror this for the consumer side.
/// `EXACT_SZ` makes the ring hold exactly the requested number of entries,
/// rounding the allocation up to a power of two; without it the requested
/// size must itself be a power of two and one slot stays unusable.
#[derive(Clone, Copy, Debug, PartialEq, Eq, Structural)]
pub struct RingFlags {
    pub bits: u32,
}

impl RingFlags {
    /// The enqueue side has a single producer.
    pub const SP_ENQ: u32 = 0x0001;

    /// The dequeue side has a single consumer.
    pub const SC_DEQ: u32 = 0x0002;

    /// The ring holds exactly the requested number of entries.
    pub const EXACT_SZ: u32 = 0x0004;

    /// The enqueue side uses multi-producer relaxed tail sync.
    pub const MP_RTS_ENQ: u32 = 0x0008;

    /// The dequeue side uses multi-consumer relaxed tail sync.
    pub const MC_RTS_DEQ: u32 = 0x0010;

    /// The enqueue side uses multi-producer head/tail sync.
    pub const MP_HTS_ENQ: u32 = 0x0020;

    /// The dequeue side uses multi-consumer head/tail sync.
    pub const MC_HTS_DEQ: u32 = 0x0040;

    /// The flag value holds the given bit (or at least one of the given bits).
    pub open spec fn spec_has(self, bit: u32) -> bool {
        self.bits & bit != 0
    }

    /// An empty flag value: every option at its default.
    pub fn empty() -> (r: RingFlags)
        ensures
            r.bits == 0,
    {
        RingFlags { bits: 0 }
    }

    /// Builds a flag value directly from its bits.
    pub fn from_bits(bits: u32) -> (r: RingFlags)
        ensures
            r.bits == bits,
    {
        RingFlags { bits }
    }

    /// Tests a flag bit.
    pub fn has(&self, bit: u32) -> (r: bool)
        ensures
            r == self.spec_has(bit),
    {
        self.bits & bit != 0
    }

    /// Only defined flag bits are set, and the producer flags and consumer
    /// flags are each mutually exclusive.
    pub open spec fn spec_valid(self) -> bool {
        &&& self.bits & 0xffff_ff80 == 0
        &&& !(self.spec_has(RingFlags::SP_ENQ) && self.spec_has(RingFlags::MP_RTS_ENQ))
        &&& !(self.spec_has(RingFlags::SP_ENQ) && self.spec_has(RingFlags::MP_HTS_ENQ))
        &&& !(self.spec_has(RingFlags::MP_RTS_ENQ) && self.spec_has(RingFlags::MP_HTS_ENQ))
        &&& !(self.spec_has(RingFlags::SC_DEQ) && self.spec_has(RingFlags::MC_RTS_DEQ))
        &&& !(self.spec_has(RingFlags::SC_DEQ) && self.spec_has(RingFlags::MC_HTS_DEQ))
        &&& !(self.spec_has(RingFlags::MC_RTS_DEQ) && self.spec_has(RingFlags::MC_HTS_DEQ))
    }

    /// The producer discipline the flag value selects.
    pub open spec fn spec_prod_sync(self) -> SyncMode {
        if self.spec_has(RingFlags::SP_ENQ) {
            SyncMode::Single
        } else if self.spec_has(RingFlags::MP_RTS_ENQ) {
            SyncMode::MultiRts
        } else if self.spec_has(RingFlags::MP_HTS_ENQ) {
            SyncMode::MultiHts
        } else {
            SyncMode::MultiCas
        }
    }

    /// The consumer discipline the flag value selects.
    pub open spec fn spec_cons_sync(self) -> SyncMode {
        if self.spec_has(RingFlags::SC_DEQ) {
            SyncMode::Single
        } else if self.spec_has(RingFlags::MC_RTS_DEQ) {
            SyncMode::MultiRts
        } else if self.spec_has(RingFlags::MC_HTS_DEQ) {
            SyncMode::MultiHts
        } else {
            SyncMode::MultiCas
        }
    }

    /// Exact sizing is requested.
    pub open spec fn spec_exact(self) -> bool {
        self.spec_has(RingFlags::EXACT_SZ)
    }

    /// Checks the flag value and decodes the two synchronization modes.
    pub fn decode(&self) -> (r: Option<(SyncMode, SyncMode)>)
        ensures
            r is Some <==> self.spec_valid(),
            r matches Some(ms) ==> ms.0 == self.spec_prod_sync() && ms.1 == self.spec_cons_sync(),
    {
        if self.bits & 0xffff_ff80 != 0 {
            return None;
        }
        let sp = self.has(RingFlags::SP_ENQ);
        let p_rts = self.has(RingFlags::MP_RTS_ENQ);
        let p_hts = self.has(RingFlags::MP_HTS_ENQ);
        let sc = self.has(RingFlags::SC_DEQ);
        let c_rts = self.has(RingFlags::MC_RTS_DEQ);
        let c_hts = self.has(RingFlags::MC_HTS_DEQ);
        if (sp && p_rts) || (sp && p_hts) || (p_rts && p_hts) {
            return None;
        }
        if (sc && c_rts) || (sc && c_hts) || (c_rts && c_hts) {
            return None;
        }
        let prod = if sp {
            SyncMode::Single
        } else if p_rts {
            SyncMode::MultiRts
        } else if p_hts {
            SyncMode::MultiHts
        } else {
            SyncMode::MultiCas
        };
        let cons = if sc {
            SyncMode::Single
        } else if c_rts {
            SyncMode::MultiRts
        } else if c_hts {
            SyncMode::MultiHts
        } else {
            SyncMode::MultiCas
        };
        Some((prod, cons))
    }
}

/// How one side of the ring synchronizes concurrent callers.
#[derive(Clone, Copy, Debug, PartialEq, Eq, Structural)]
pub enum SyncMode {
    /// A single caller at a time; head and tail advance together.
    Single,
    /// Many callers; ranges are reserved with a compare-and-swap on the head
    /// and published strictly in reservation order.
    MultiCas,
    /// Many callers; relaxed tail sync batches tail advances, the last
    /// in-flight reservation to finish catches the tail up to the head.
    MultiRts,
    /// Many callers; head/tail sync serializes reservations so that reserving
    /// and publishing form one combined step per batch.
    MultiHts,
}

/// Requested ring geometry and behaviour.
#[derive(Clone, Debug)]
pub struct RingConf {
    /// The size of the ring: the number of usable entries when
    /// `RingFlags::EXACT_SZ` is set, else a power of two of which one entry
    /// stays unusable.
    pub count: u32,
    /// Placement hint for the backing memory (a NUMA socket identifier);
    /// it must fit a signed 32-bit integer and does not affect behaviour.
    pub socket_id: u32,
    /// OR-ed `RingFlags` bits selecting producer arity, consumer arity,
    /// contention strategy and exact sizing.
    pub flag: RingFlags,
}

} // verus!
