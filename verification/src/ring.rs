//! The ring itself: a fixed-capacity circular FIFO queue of opaque tokens.
//!
//! Four wrapping 32-bit counters partition the slot array: the region from
//! `cons_tail` to `cons_head` is reserved for reading, from `cons_head` to
//! `prod_tail` committed and readable, from `prod_tail` to `prod_head`
//! reserved for writing, and the rest free.  An operation reserves a
//! contiguous counter range, copies tokens, and publishes by advancing the
//! tail; each side does so under the synchronization discipline it was
//! configured with.  With exclusive access — which `&mut self` grants the
//! verified code — every discipline leaves the same footprint: head and tail
//! return to agreement, and the abstract contents (`self@`, a sequence of
//! tokens) gain or lose exactly the accepted batch.

use vstd::prelude::*;

use crate::capacity::calc_geometry;
use crate::capacity::spec_count_ok;
use crate::capacity::spec_usable_capacity;
use crate::errors::RingError;
use crate::flags::RingConf;
use crate::flags::RingFlags;
use crate::flags::SyncMode;
use crate::wrap::is_pow2;
use crate::wrap::lemma_dist_grows;
use crate::wrap::lemma_dist_shrinks;
use crate::wrap::lemma_mask_bounds;
use crate::wrap::lemma_masked_offsets_distinct;
use crate::wrap::lemma_wadd_assoc;
use crate::wrap::lemma_wadd_of_wsub;
use crate::wrap::wadd;
use crate::wrap::wsub;

verus! {

/// How many of a request of `n` elements go through when `free` are possible:
/// all of them if they fit, none in all-or-nothing (`fixed`) mode otherwise,
/// and as many as fit in best-effort mode.
pub open spec fn accepted_count(n: int, free: int, fixed: bool) -> int {
    if n <= free {
        n
    } else if fixed {
        0
    } else {
        free
    }
}

/// A fixed-capacity circular FIFO queue of `u64` tokens.
///
/// The ring never inspects a token; it moves each one in by value on enqueue
/// and back out by value on dequeue, duplicating none and dropping none.  Its
/// abstract contents are `self@`, the committed tokens in the order they were
/// enqueued.
pub struct Ring {
    /// The name the ring was created under.
    name: String,
    /// Power-of-two slot array; a slot holds one opaque token.
    slots: Vec<u64>,
    /// Slot count minus one; counter AND mask is a slot index.
    mask: u32,
    /// Usable capacity; at most `mask`, so the counters can always tell a
    /// full ring from an empty one.
    cap: u32,
    /// Producer head: end of the range reserved for writing.
    prod_head: u32,
    /// Producer tail: end of the committed (readable) region.
    prod_tail: u32,
    /// Consumer head: end of the range reserved for reading.
    cons_head: u32,
    /// Consumer tail: start of the range reserved for reading.
    cons_tail: u32,
    /// Discipline of the enqueue side.
    prod_sync: SyncMode,
    /// Discipline of the dequeue side.
    cons_sync: SyncMode,
    /// Relaxed tail sync bookkeeping: producer reservations not yet published.
    prod_inflight: u32,
    /// Relaxed tail sync bookkeeping: consumer reservations not yet published.
    cons_inflight: u32,
}

impl View for Ring {
    type V = Seq<u64>;

    /// The committed tokens, oldest first.
    closed spec fn view(&self) -> Seq<u64> {
        Seq::new(
            self.spec_len() as nat,
            |j: int| self.slots@[(wadd(self.cons_head, j as u32) & self.mask) as int],
        )
    }
}

impl Ring {
    /// Number of committed, not yet dequeued tokens.
    pub closed spec fn spec_len(&self) -> u32 {
        wsub(self.prod_tail, self.cons_head)
    }

    /// Usable capacity.
    pub closed spec fn spec_capacity(&self) -> u32 {
        self.cap
    }

    /// Free space: how many more tokens fit right now.
    pub open spec fn spec_free(&self) -> int {
        self.spec_capacity() - self@.len()
    }

    /// Discipline of the enqueue side.
    pub closed spec fn spec_prod_sync(&self) -> SyncMode {
        self.prod_sync
    }

    /// Discipline of the dequeue side.
    pub closed spec fn spec_cons_sync(&self) -> SyncMode {
        self.cons_sync
    }

    /// The name the ring was created under.
    pub closed spec fn spec_name(&self) -> Seq<char> {
        self.name@
    }

    /// The setup fixed at creation: name, capacity, mask and disciplines.
    pub closed spec fn spec_setup(&self) -> (Seq<char>, u32, u32, SyncMode, SyncMode) {
        (self.name@, self.cap, self.mask, self.prod_sync, self.cons_sync)
    }

    /// Structural well-formedness: the slot array matches the power-of-two
    /// mask and the capacity leaves at least one slot free.
    spec fn wf_core(&self) -> bool {
        &&& is_pow2((self.mask + 1) as u32)
        &&& self.mask <= 0x3fff_ffff
        &&& self.slots@.len() == self.mask + 1
        &&& self.cap <= self.mask
    }

    /// No reservation is outstanding: each head agrees with its tail and the
    /// relaxed-tail-sync counts are zero.
    spec fn at_rest(&self) -> bool {
        &&& self.prod_head == self.prod_tail
        &&& self.cons_head == self.cons_tail
        &&& wsub(self.prod_tail, self.cons_head) <= self.cap
        &&& self.prod_inflight == 0
        &&& self.cons_inflight == 0
    }

    /// Ring invariant between operations; established by `try_create` and
    /// preserved by every operation.
    pub closed spec fn wf(&self) -> bool {
        self.wf_core() && self.at_rest()
    }

    /// Creates a ring.  `conf.count` entries are usable when
    /// `RingFlags::EXACT_SZ` is set; otherwise `conf.count` must be a power
    /// of two and `conf.count - 1` entries are usable.  Rejects a zero or
    /// unrepresentable count, conflicting flags, and a socket hint that does
    /// not fit a signed 32-bit integer.
    pub fn try_create(name: String, conf: &RingConf) -> (r: Result<Ring, RingError>)
        ensures
            r is Ok <==> {
                &&& conf.flag.spec_valid()
                &&& conf.socket_id <= 0x7fff_ffff
                &&& spec_count_ok(conf.count, conf.flag.spec_exact())
            },
            r matches Ok(ring) ==> {
                &&& ring.wf()
                &&& ring@ == Seq::<u64>::empty()
                &&& ring.spec_capacity() == spec_usable_capacity(
                    conf.count,
                    conf.flag.spec_exact(),
                )
                &&& ring.spec_prod_sync() == conf.flag.spec_prod_sync()
                &&& ring.spec_cons_sync() == conf.flag.spec_cons_sync()
                &&& ring.spec_name() == name@
            },
            r is Err ==> r == Err::<Ring, RingError>(RingError::InvalidConfig),
    {
        if conf.socket_id > 0x7fff_ffff {
            return Err(RingError::InvalidConfig);
        }
        let modes = match conf.flag.decode() {
            Some(m) => m,
            None => {
                return Err(RingError::InvalidConfig);
            },
        };
        let exact = conf.flag.has(RingFlags::EXACT_SZ);
        let g = match calc_geometry(conf.count, exact) {
            Ok(g) => g,
            Err(e) => {
                return Err(e);
            },
        };
        let mut slots: Vec<u64> = Vec::new();
        let mut i: u32 = 0;
        while i < g.size
            invariant
                i <= g.size,
                slots@.len() == i,
            decreases g.size - i,
        {
            slots.push(0);
            i = i + 1;
        }
        let ring = Ring {
            name,
            slots,
            mask: g.mask,
            cap: g.capacity,
            prod_head: 0,
            prod_tail: 0,
            cons_head: 0,
            cons_tail: 0,
            prod_sync: modes.0,
            cons_sync: modes.1,
            prod_inflight: 0,
            cons_inflight: 0,
        };
        proof {
            assert(ring@ =~= Seq::<u64>::empty());
        }
        Ok(ring)
    }

    /// Number of committed tokens waiting to be dequeued.
    pub fn len(&self) -> (r: u32)
        requires
            self.wf(),
        ensures
            r == self@.len(),
    {
        self.prod_tail.wrapping_sub(self.cons_head)
    }

    /// Usable capacity.
    pub fn capacity(&self) -> (r: u32)
        requires
            self.wf(),
        ensures
            r == self.spec_capacity(),
    {
        self.cap
    }

    /// The ring holds no token.
    pub fn is_empty(&self) -> (r: bool)
        requires
            self.wf(),
        ensures
            r == (self@.len() == 0),
    {
        self.len() == 0
    }

    /// No further token fits.
    pub fn is_full(&self) -> (r: bool)
        requires
            self.wf(),
        ensures
            r == (self@.len() == self.spec_capacity()),
    {
        self.len() == self.cap
    }

    /// The name the ring was created under.
    pub fn name(&self) -> (r: &String)
        ensures
            r@ == self.spec_name(),
    {
        &self.name
    }

    /// Free slot count, from the producer's counters.
    fn free_count(&self) -> (r: u32)
        requires
            self.wf(),
        ensures
            r == self.spec_free(),
    {
        self.cap - self.prod_head.wrapping_sub(self.cons_tail)
    }

    /// Producer reservation: claims the next `acc` slots by advancing the
    /// producer head, where `acc` follows the all-or-nothing or best-effort
    /// rule.  Under concurrency the claim is what hands the caller exclusive
    /// ownership of the claimed range; each discipline takes it differently,
    /// but with exclusive access every one reduces to one head advance.
    fn reserve_prod(&mut self, n: usize, fixed: bool) -> (acc: u32)
        requires
            old(self).wf(),
        ensures
            final(self).wf_core(),
            final(self).name == old(self).name,
            final(self).slots == old(self).slots,
            final(self).mask == old(self).mask,
            final(self).cap == old(self).cap,
            final(self).prod_sync == old(self).prod_sync,
            final(self).cons_sync == old(self).cons_sync,
            final(self).cons_head == old(self).cons_head,
            final(self).cons_tail == old(self).cons_tail,
            final(self).cons_inflight == 0,
            final(self).prod_tail == old(self).prod_tail,
            acc == accepted_count(n as int, old(self).spec_free(), fixed),
            final(self).prod_head == wadd(old(self).prod_head, acc),
            final(self).prod_inflight == if acc > 0 && old(self).prod_sync
                == SyncMode::MultiRts {
                1u32
            } else {
                0u32
            },
    {
        let free = self.cap - self.prod_head.wrapping_sub(self.cons_tail);
        let acc: u32 = if n <= free as usize {
            n as u32
        } else if fixed {
            0
        } else {
            free
        };
        if acc == 0 {
            proof {
                assert(wadd(self.prod_head, 0) == self.prod_head);
            }
            return 0;
        }
        let new_head = self.prod_head.wrapping_add(acc);
        match self.prod_sync {
            SyncMode::Single => {
                // the lone producer owns the head outright
                self.prod_head = new_head;
            },
            SyncMode::MultiCas => {
                // concurrent producers would race a compare-and-swap from the
                // head value just read to `new_head`, retrying on conflict;
                // exclusive access makes the first attempt succeed
                self.prod_head = new_head;
            },
            SyncMode::MultiRts => {
                // relaxed tail sync also counts the reservation as in flight
                self.prod_head = new_head;
                self.prod_inflight = self.prod_inflight + 1;
            },
            SyncMode::MultiHts => {
                // head/tail sync admits a reservation only once the tail has
                // caught the head up — true here, the ring is at rest — and
                // advances the pair's head half in one step
                self.prod_head = new_head;
            },
        }
        acc
    }

    /// Producer publication: commits the `acc` reserved and filled slots by
    /// advancing the producer tail to the head.  Plain compare-and-swap mode
    /// publishes strictly in reservation order; relaxed tail sync lets the
    /// last in-flight reservation catch the tail up in one step; head/tail
    /// sync completes its combined step.
    fn publish_prod(&mut self, acc: u32)
        requires
            old(self).wf_core(),
            acc >= 1,
            old(self).prod_head == wadd(old(self).prod_tail, acc),
            old(self).prod_inflight == if old(self).prod_sync == SyncMode::MultiRts {
                1u32
            } else {
                0u32
            },
        ensures
            final(self).name == old(self).name,
            final(self).slots == old(self).slots,
            final(self).mask == old(self).mask,
            final(self).cap == old(self).cap,
            final(self).prod_sync == old(self).prod_sync,
            final(self).cons_sync == old(self).cons_sync,
            final(self).cons_head == old(self).cons_head,
            final(self).cons_tail == old(self).cons_tail,
            final(self).cons_inflight == old(self).cons_inflight,
            final(self).prod_head == old(self).prod_head,
            final(self).prod_tail == old(self).prod_head,
            final(self).prod_inflight == 0,
    {
        match self.prod_sync {
            SyncMode::Single => {
                self.prod_tail = self.prod_head;
            },
            SyncMode::MultiCas => {
                // a concurrent producer would spin until the tail reaches its
                // own reservation start, keeping publication in reservation
                // order; with exclusive access the tail is already there
                self.prod_tail = self.prod_head;
            },
            SyncMode::MultiRts => {
                // the decrement that empties the in-flight count makes this
                // caller responsible for catching the tail up to the head
                self.prod_inflight = self.prod_inflight - 1;
                if self.prod_inflight == 0 {
                    self.prod_tail = self.prod_head;
                }
            },
            SyncMode::MultiHts => {
                // the tail half of the combined head/tail step
                self.prod_tail = self.prod_head;
            },
        }
    }

    /// Consumer reservation: claims the next `acc` committed tokens by
    /// advancing the consumer head; the mirror image of `reserve_prod`.
    fn reserve_cons(&mut self, n: usize, fixed: bool) -> (acc: u32)
        requires
            old(self).wf(),
        ensures
            final(self).wf_core(),
            final(self).name == old(self).name,
            final(self).slots == old(self).slots,
            final(self).mask == old(self).mask,
            final(self).cap == old(self).cap,
            final(self).prod_sync == old(self).prod_sync,
            final(self).cons_sync == old(self).cons_sync,
            final(self).prod_head == old(self).prod_head,
            final(self).prod_tail == old(self).prod_tail,
            final(self).prod_inflight == 0,
            final(self).cons_tail == old(self).cons_tail,
            acc == accepted_count(n as int, old(self)@.len() as int, fixed),
            final(self).cons_head == wadd(old(self).cons_head, acc),
            final(self).cons_inflight == if acc > 0 && old(self).cons_sync
                == SyncMode::MultiRts {
                1u32
            } else {
                0u32
            },
    {
        let avail = self.prod_tail.wrapping_sub(self.cons_head);
        let acc: u32 = if n <= avail as usize {
            n as u32
        } else if fixed {
            0
        } else {
            avail
        };
        if acc == 0 {
            proof {
                assert(wadd(self.cons_head, 0) == self.cons_head);
            }
            return 0;
        }
        let new_head = self.cons_head.wrapping_add(acc);
        match self.cons_sync {
            SyncMode::Single => {
                // the lone consumer owns the head outright
                self.cons_head = new_head;
            },
            SyncMode::MultiCas => {
                // concurrent consumers would race a compare-and-swap on the
                // head; exclusive access makes the first attempt succeed
                self.cons_head = new_head;
            },
            SyncMode::MultiRts => {
                // relaxed tail sync also counts the reservation as in flight
                self.cons_head = new_head;
                self.cons_inflight = self.cons_inflight + 1;
            },
            SyncMode::MultiHts => {
                // the head half of the combined head/tail step
                self.cons_head = new_head;
            },
        }
        acc
    }

    /// Consumer publication: returns the `acc` read slots to the free region
    /// by advancing the consumer tail to the head; the mirror image of
    /// `publish_prod`.
    fn publish_cons(&mut self, acc: u32)
        requires
            old(self).wf_core(),
            acc >= 1,
            old(self).cons_head == wadd(old(self).cons_tail, acc),
            old(self).cons_inflight == if old(self).cons_sync == SyncMode::MultiRts {
                1u32
            } else {
                0u32
            },
        ensures
            final(self).name == old(self).name,
            final(self).slots == old(self).slots,
            final(self).mask == old(self).mask,
            final(self).cap == old(self).cap,
            final(self).prod_sync == old(self).prod_sync,
            final(self).cons_sync == old(self).cons_sync,
            final(self).prod_head == old(self).prod_head,
            final(self).prod_tail == old(self).prod_tail,
            final(self).prod_inflight == old(self).prod_inflight,
            final(self).cons_head == old(self).cons_head,
            final(self).cons_tail == old(self).cons_head,
            final(self).cons_inflight == 0,
    {
        match self.cons_sync {
            SyncMode::Single => {
                self.cons_tail = self.cons_head;
            },
            SyncMode::MultiCas => {
                // a concurrent consumer would spin until the tail reaches its
                // own reservation start; with exclusive access it is there
                self.cons_tail = self.cons_head;
            },
            SyncMode::MultiRts => {
                self.cons_inflight = self.cons_inflight - 1;
                if self.cons_inflight == 0 {
                    self.cons_tail = self.cons_head;
                }
            },
            SyncMode::MultiHts => {
                self.cons_tail = self.cons_head;
            },
        }
    }

    /// Enqueue under either acceptance rule: reserve, copy, publish.
    fn do_enqueue(&mut self, elements: &[u64], fixed: bool) -> (acc: u32)
        requires
            old(self).wf(),
        ensures
            final(self).wf(),
            final(self).spec_setup() == old(self).spec_setup(),
            acc == accepted_count(elements@.len() as int, old(self).spec_free(), fixed),
            final(self)@ == old(self)@ + elements@.take(acc as int),
    {
        let ghost g_old = *old(self);
        let acc = self.reserve_prod(elements.len(), fixed);
        if acc == 0 {
            proof {
                assert(self@ =~= g_old@ + elements@.take(0));
            }
            return 0;
        }
        let start = self.prod_tail;
        let mask = self.mask;
        let ghost ch = g_old.cons_head;
        let ghost lenu = g_old.spec_len();
        proof {
            lemma_wadd_of_wsub(start, ch);
        }
        let mut i: u32 = 0;
        while i < acc
            invariant
                self.wf_core(),
                self.name == g_old.name,
                self.mask == g_old.mask,
                self.cap == g_old.cap,
                self.prod_sync == g_old.prod_sync,
                self.cons_sync == g_old.cons_sync,
                self.cons_head == g_old.cons_head,
                self.cons_tail == g_old.cons_tail,
                self.cons_inflight == 0,
                self.prod_tail == g_old.prod_tail,
                self.prod_head == wadd(start, acc),
                self.prod_inflight == if self.prod_sync == SyncMode::MultiRts {
                    1u32
                } else {
                    0u32
                },
                self.slots@.len() == g_old.slots@.len(),
                g_old.wf(),
                start == g_old.prod_tail,
                mask == g_old.mask,
                ch == g_old.cons_head,
                lenu == g_old.spec_len(),
                start == wadd(ch, lenu),
                i <= acc,
                acc <= elements@.len(),
                acc + lenu <= g_old.cap,
                forall|j: u32|
                    j < lenu ==> self.slots@[((#[trigger] wadd(ch, j)) & mask) as int]
                        == g_old.slots@[(wadd(ch, j) & mask) as int],
                forall|k: u32|
                    k < i ==> self.slots@[((#[trigger] wadd(start, k)) & mask) as int]
                        == elements@[k as int],
            decreases acc - i,
        {
            proof {
                lemma_mask_bounds(wadd(start, i), mask);
            }
            let idx = (start.wrapping_add(i) & mask) as usize;
            self.slots.set(idx, elements[i as usize]);
            proof {
                assert forall|j: u32|
                    j < lenu implies self.slots@[((#[trigger] wadd(ch, j)) & mask) as int]
                    == g_old.slots@[(wadd(ch, j) & mask) as int] by {
                    lemma_mask_bounds(wadd(ch, j), mask);
                    lemma_wadd_assoc(ch, lenu, i);
                    assert(wadd(lenu, i) == (lenu + i) as u32);
                    lemma_masked_offsets_distinct(ch, j, (lenu + i) as u32, mask);
                }
                assert forall|k: u32|
                    k < i + 1 implies self.slots@[((#[trigger] wadd(start, k)) & mask) as int]
                    == elements@[k as int] by {
                    lemma_mask_bounds(wadd(start, k), mask);
                    if k < i {
                        lemma_masked_offsets_distinct(start, k, i, mask);
                    }
                }
            }
            i = i + 1;
        }
        self.publish_prod(acc);
        proof {
            lemma_dist_grows(g_old.prod_tail, ch, acc);
            assert(self@.len() == lenu + acc);
            assert forall|j: int|
                0 <= j < self@.len() implies self@[j] == (g_old@ + elements@.take(acc as int))[j]
                by {
                if j < lenu {
                    let ju = j as u32;
                    assert(self.slots@[(wadd(ch, ju) & mask) as int] == g_old.slots@[(wadd(ch, ju)
                        & mask) as int]);
                } else {
                    let k = (j - lenu) as u32;
                    lemma_wadd_assoc(ch, lenu, k);
                    assert(wadd(lenu, k) == j as u32);
                    assert(wadd(ch, j as u32) == wadd(start, k));
                }
            }
            assert(self@ =~= g_old@ + elements@.take(acc as int));
        }
        acc
    }

    /// Dequeue under either acceptance rule: reserve, copy out, publish.
    fn do_dequeue(&mut self, n: usize, fixed: bool) -> (out: Vec<u64>)
        requires
            old(self).wf(),
        ensures
            final(self).wf(),
            final(self).spec_setup() == old(self).spec_setup(),
            out@.len() == accepted_count(n as int, old(self)@.len() as int, fixed),
            out@ == old(self)@.take(out@.len() as int),
            final(self)@ == old(self)@.skip(out@.len() as int),
    {
        let ghost g_old = *old(self);
        let acc = self.reserve_cons(n, fixed);
        if acc == 0 {
            proof {
                assert(Seq::<u64>::empty() =~= g_old@.take(0));
                assert(self@ =~= g_old@.skip(0));
            }
            return Vec::new();
        }
        let start = self.cons_tail;
        let mask = self.mask;
        let mut out: Vec<u64> = Vec::new();
        let mut k: u32 = 0;
        while k < acc
            invariant
                self.wf_core(),
                self.name == g_old.name,
                self.mask == g_old.mask,
                self.cap == g_old.cap,
                self.prod_sync == g_old.prod_sync,
                self.cons_sync == g_old.cons_sync,
                self.prod_head == g_old.prod_head,
                self.prod_tail == g_old.prod_tail,
                self.prod_inflight == 0,
                self.slots == g_old.slots,
                self.cons_tail == g_old.cons_head,
                self.cons_head == wadd(start, acc),
                self.cons_inflight == if self.cons_sync == SyncMode::MultiRts {
                    1u32
                } else {
                    0u32
                },
                g_old.wf(),
                start == g_old.cons_head,
                mask == g_old.mask,
                k <= acc,
                acc <= g_old.spec_len(),
                out@.len() == k,
                forall|j: int| 0 <= j < k ==> out@[j] == g_old@[j],
            decreases acc - k,
        {
            proof {
                lemma_mask_bounds(wadd(start, k), mask);
            }
            let idx = (start.wrapping_add(k) & mask) as usize;
            let v = self.slots[idx];
            out.push(v);
            k = k + 1;
        }
        self.publish_cons(acc);
        proof {
            lemma_dist_shrinks(g_old.prod_tail, g_old.cons_head, acc);
            assert(self@.len() == g_old.spec_len() - acc);
            assert forall|j: int| 0 <= j < self@.len() implies self@[j] == g_old@[acc + j] by {
                lemma_wadd_assoc(g_old.cons_head, acc, j as u32);
                assert(wadd(acc, j as u32) == (acc + j) as u32);
            }
            assert(out@ =~= g_old@.take(acc as int));
            assert(self@ =~= g_old@.skip(acc as int));
        }
        out
    }

    /// Enqueues all of `elements`, or none: if fewer than `elements.len()`
    /// slots are free, the ring is left unchanged and the error reports how
    /// many were free.
    pub fn enqueue_bulk(&mut self, elements: &[u64]) -> (r: Result<(), RingError>)
        requires
            old(self).wf(),
        ensures
            final(self).wf(),
            final(self).spec_setup() == old(self).spec_setup(),
            r is Ok <==> old(self)@.len() + elements@.len() <= old(self).spec_capacity(),
            r is Ok ==> final(self)@ == old(self)@ + elements@,
            r is Err ==> final(self)@ == old(self)@,
            r is Err ==> r == Err::<(), RingError>(
                RingError::InsufficientSpace { available: old(self).spec_free() as u32 },
            ),
            final(self)@ == crate::laws::op_contents(
                old(self).spec_capacity() as int,
                old(self)@,
                crate::laws::RingOp::Enqueue { items: elements@ },
            ),
    {
        let available = self.free_count();
        let acc = self.do_enqueue(elements, true);
        if acc as usize == elements.len() {
            proof {
                assert(elements@.take(elements@.len() as int) =~= elements@);
            }
            Ok(())
        } else {
            proof {
                assert(self@ =~= old(self)@);
            }
            Err(RingError::InsufficientSpace { available })
        }
    }

    /// Enqueues as many of `elements` as fit, front first, and returns how
    /// many it took; zero when the ring is full.
    pub fn enqueue_burst(&mut self, elements: &[u64]) -> (accepted: usize)
        requires
            old(self).wf(),
        ensures
            final(self).wf(),
            final(self).spec_setup() == old(self).spec_setup(),
            accepted == accepted_count(elements@.len() as int, old(self).spec_free(), false),
            accepted <= elements@.len(),
            accepted + old(self)@.len() <= old(self).spec_capacity(),
            final(self)@ == old(self)@ + elements@.take(accepted as int),
    {
        let acc = self.do_enqueue(elements, false);
        acc as usize
    }

    /// Dequeues exactly `n` tokens, oldest first, or none: if fewer than `n`
    /// are committed, the ring is left unchanged and the error reports how
    /// many were available.
    pub fn dequeue_bulk(&mut self, n: usize) -> (r: Result<Vec<u64>, RingError>)
        requires
            old(self).wf(),
        ensures
            final(self).wf(),
            final(self).spec_setup() == old(self).spec_setup(),
            r is Ok <==> n <= old(self)@.len(),
            r matches Ok(v) ==> v@ == old(self)@.take(n as int) && final(self)@ == old(
                self,
            )@.skip(n as int),
            r is Err ==> final(self)@ == old(self)@,
            r is Err ==> r == Err::<Vec<u64>, RingError>(
                RingError::InsufficientElements { available: old(self)@.len() as u32 },
            ),
            final(self)@ == crate::laws::op_contents(
                old(self).spec_capacity() as int,
                old(self)@,
                crate::laws::RingOp::Dequeue { count: n as int },
            ),
            r matches Ok(v) ==> v@ == crate::laws::op_output(
                old(self).spec_capacity() as int,
                old(self)@,
                crate::laws::RingOp::Dequeue { count: n as int },
            ),
    {
        let available = self.len();
        let out = self.do_dequeue(n, true);
        if out.len() == n {
            Ok(out)
        } else {
            proof {
                assert(self@ =~= old(self)@);
            }
            Err(RingError::InsufficientElements { available })
        }
    }

    /// Dequeues up to `n` tokens, oldest first; fewer — possibly none — when
    /// the ring holds fewer.
    pub fn dequeue_burst(&mut self, n: usize) -> (out: Vec<u64>)
        requires
            old(self).wf(),
        ensures
            final(self).wf(),
            final(self).spec_setup() == old(self).spec_setup(),
            out@.len() == accepted_count(n as int, old(self)@.len() as int, false),
            out@ == old(self)@.take(out@.len() as int),
            final(self)@ == old(self)@.skip(out@.len() as int),
    {
        self.do_dequeue(n, false)
    }
}

} // verus!
