//! Conservation law for the ring viewed as a FIFO queue.
//!
//! The bulk operations' contracts describe one call each.  This module states
//! what they add up to over a whole run: however bulk enqueues and dequeues
//! are interleaved, the tokens handed out, followed by the tokens still held,
//! are exactly the tokens that were in the ring at the start followed by the
//! tokens successfully enqueued — same order, none lost, none duplicated.
//! The `ensures` of `Ring::enqueue_bulk` and `Ring::dequeue_bulk` state the
//! step each call takes through the functions below, so the law speaks of
//! exactly what those contracts promise.

use vstd::prelude::*;

verus! {

/// One bulk call against a ring, in the abstract: an enqueue of a batch of
/// tokens, or a dequeue of a count.
pub enum RingOp {
    /// A bulk enqueue of this batch.
    Enqueue { items: Seq<u64> },
    /// A bulk dequeue of this many tokens.
    Dequeue { count: int },
}

/// The contents after one bulk call on a ring of capacity `cap` holding `v`:
/// an enqueue appends its whole batch when it fits and otherwise changes
/// nothing; a dequeue drops the requested prefix when it is there and
/// otherwise changes nothing.
pub open spec fn op_contents(cap: int, v: Seq<u64>, op: RingOp) -> Seq<u64> {
    match op {
        RingOp::Enqueue { items } => if v.len() + items.len() <= cap {
            v + items
        } else {
            v
        },
        RingOp::Dequeue { count } => if 0 <= count <= v.len() {
            v.skip(count)
        } else {
            v
        },
    }
}

/// The tokens one bulk call hands to the caller: a successful dequeue yields
/// the requested prefix, everything else yields nothing.
pub open spec fn op_output(cap: int, v: Seq<u64>, op: RingOp) -> Seq<u64> {
    match op {
        RingOp::Enqueue { .. } => Seq::<u64>::empty(),
        RingOp::Dequeue { count } => if 0 <= count <= v.len() {
            v.take(count)
        } else {
            Seq::<u64>::empty()
        },
    }
}

/// The tokens one bulk call takes in: a successful enqueue absorbs its whole
/// batch, everything else absorbs nothing.
pub open spec fn op_accepted(cap: int, v: Seq<u64>, op: RingOp) -> Seq<u64> {
    match op {
        RingOp::Enqueue { items } => if v.len() + items.len() <= cap {
            items
        } else {
            Seq::<u64>::empty()
        },
        RingOp::Dequeue { .. } => Seq::<u64>::empty(),
    }
}

/// Contents after a whole run of bulk calls, first call first.
pub open spec fn run_contents(cap: int, v: Seq<u64>, ops: Seq<RingOp>) -> Seq<u64>
    decreases ops.len(),
{
    if ops.len() == 0 {
        v
    } else {
        run_contents(cap, op_contents(cap, v, ops[0]), ops.skip(1))
    }
}

/// Everything a run of bulk calls hands out, in dequeue order.
pub open spec fn run_outputs(cap: int, v: Seq<u64>, ops: Seq<RingOp>) -> Seq<u64>
    decreases ops.len(),
{
    if ops.len() == 0 {
        Seq::<u64>::empty()
    } else {
        op_output(cap, v, ops[0]) + run_outputs(cap, op_contents(cap, v, ops[0]), ops.skip(1))
    }
}

/// Everything a run of bulk calls takes in, in enqueue order.
pub open spec fn run_accepted(cap: int, v: Seq<u64>, ops: Seq<RingOp>) -> Seq<u64>
    decreases ops.len(),
{
    if ops.len() == 0 {
        Seq::<u64>::empty()
    } else {
        op_accepted(cap, v, ops[0]) + run_accepted(cap, op_contents(cap, v, ops[0]), ops.skip(1))
    }
}

/// FIFO conservation: over any run of bulk calls on a ring of capacity `cap`
/// that starts out holding `v`, the tokens handed out followed by the tokens
/// still held are exactly `v` followed by the tokens taken in — the ring
/// reorders nothing, loses nothing and duplicates nothing.
pub proof fn lemma_fifo_conservation(cap: int, v: Seq<u64>, ops: Seq<RingOp>)
    ensures
        run_outputs(cap, v, ops) + run_contents(cap, v, ops) == v + run_accepted(cap, v, ops),
    decreases ops.len(),
{
    if ops.len() == 0 {
        assert(Seq::<u64>::empty() + v =~= v + Seq::<u64>::empty());
    } else {
        let v1 = op_contents(cap, v, ops[0]);
        let out0 = op_output(cap, v, ops[0]);
        let acc0 = op_accepted(cap, v, ops[0]);
        let rest = ops.skip(1);
        lemma_fifo_conservation(cap, v1, rest);
        match ops[0] {
            RingOp::Enqueue { items } => {
                if v.len() + items.len() <= cap {
                    assert(out0 + run_outputs(cap, v1, rest) =~= run_outputs(cap, v1, rest));
                    assert((v + items) + run_accepted(cap, v1, rest) =~= v + (items + run_accepted(
                        cap,
                        v1,
                        rest,
                    )));
                } else {
                    assert(out0 + run_outputs(cap, v1, rest) =~= run_outputs(cap, v1, rest));
                    assert(acc0 + run_accepted(cap, v1, rest) =~= run_accepted(cap, v1, rest));
                }
            },
            RingOp::Dequeue { count } => {
                if 0 <= count <= v.len() {
                    assert((out0 + run_outputs(cap, v1, rest)) + run_contents(cap, v1, rest)
                        =~= out0 + (run_outputs(cap, v1, rest) + run_contents(cap, v1, rest)));
                    assert(out0 + (v1 + run_accepted(cap, v1, rest)) =~= (out0 + v1)
                        + run_accepted(cap, v1, rest));
                    assert(out0 + v1 =~= v);
                    assert(acc0 + run_accepted(cap, v1, rest) =~= run_accepted(cap, v1, rest));
                } else {
                    assert(out0 + run_outputs(cap, v1, rest) =~= run_outputs(cap, v1, rest));
                    assert(acc0 + run_accepted(cap, v1, rest) =~= run_accepted(cap, v1, rest));
                }
            },
        }
    }
}

} // verus!
