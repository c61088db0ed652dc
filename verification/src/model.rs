//! A model of one resource name across all processes.
//!
//! The mutex serializes every access, so the history of a resource at its
//! quiescent moments is a sequence of atomic operations: an open (attach,
//! or create when no holder is live), a mutation of the payload, a drop.
//! This module states that model and proves the protocol's invariants
//! over it: the counter equals the number of live holders, the three
//! kernel objects exist exactly while a holder is live and are gone after
//! the last drop, a read observes the payload written by the most
//! recently completed mutation, a size-changing mutation and its reversal
//! leave the payload byte-equal, and opening with a value then reading
//! yields that value back.

use vstd::prelude::*;

use crate::codec::decoded;
use crate::codec::encoded;
use crate::codec::lemma_codec_round_trip;

verus! {

/// The global state of one resource name at a quiescent moment.
pub struct ResourceModel {
    /// The number of live attach handles across all processes.
    pub holders: nat,
    /// The value of the counter semaphore.
    pub counter: nat,
    /// Whether the mutex's name exists in the kernel namespace.
    pub mutex_present: bool,
    /// Whether the counter's name exists in the kernel namespace.
    pub counter_present: bool,
    /// Whether the shared-memory object's name exists.
    pub segment_present: bool,
    /// The serialized bytes in the payload region.
    pub payload: Seq<u8>,
}

/// One atomic operation of the serialized history.
pub enum Op {
    /// A process opens the resource: the first opener creates the three
    /// kernel objects and writes the initial payload, later openers
    /// attach and leave the payload alone.
    Open { init: Seq<u8> },
    /// A live holder rewrites the payload under the mutex.
    Mutate { bytes: Seq<u8> },
    /// A holder drops its handle; the last one tears everything down.
    Drop,
}

/// The state of a name nobody holds: no kernel objects, no payload.
pub open spec fn absent() -> ResourceModel {
    ResourceModel {
        holders: 0,
        counter: 0,
        mutex_present: false,
        counter_present: false,
        segment_present: false,
        payload: Seq::empty(),
    }
}

/// The protocol invariant at a quiescent moment: the counter agrees with
/// the number of live holders; while any holder is live all three kernel
/// objects exist and the payload is the serialization of some value;
/// once no holder is live all three are gone.
pub open spec fn inv(m: ResourceModel) -> bool {
    &&& m.counter == m.holders
    &&& (m.holders > 0 ==> m.mutex_present && m.counter_present && m.segment_present)
    &&& (m.holders == 0 ==> !m.mutex_present && !m.counter_present && !m.segment_present)
    &&& (m.holders > 0 ==> exists|v: u64| m.payload == encoded(v))
}

/// The effect of an open: the first opener creates the kernel objects
/// and initializes the payload; every later opener attaches, increments
/// the counter, and leaves the payload to the creator.
pub open spec fn apply_open(m: ResourceModel, init: Seq<u8>) -> ResourceModel {
    if m.holders == 0 {
        ResourceModel {
            holders: 1,
            counter: m.counter + 1,
            mutex_present: true,
            counter_present: true,
            segment_present: true,
            payload: init,
        }
    } else {
        ResourceModel {
            holders: m.holders + 1,
            counter: m.counter + 1,
            mutex_present: m.mutex_present,
            counter_present: m.counter_present,
            segment_present: m.segment_present,
            payload: m.payload,
        }
    }
}

/// The effect of a mutation: the payload is replaced, nothing else moves.
pub open spec fn apply_mutate(m: ResourceModel, bytes: Seq<u8>) -> ResourceModel {
    ResourceModel {
        holders: m.holders,
        counter: m.counter,
        mutex_present: m.mutex_present,
        counter_present: m.counter_present,
        segment_present: m.segment_present,
        payload: bytes,
    }
}

/// The effect of a drop: the last holder removes all three kernel names;
/// any other holder only steps the counts down.
pub open spec fn apply_drop(m: ResourceModel) -> ResourceModel {
    if m.holders <= 1 {
        absent()
    } else {
        ResourceModel {
            holders: (m.holders - 1) as nat,
            counter: (m.counter - 1) as nat,
            mutex_present: m.mutex_present,
            counter_present: m.counter_present,
            segment_present: m.segment_present,
            payload: m.payload,
        }
    }
}

/// The effect of one operation.
pub open spec fn apply_op(m: ResourceModel, op: Op) -> ResourceModel {
    match op {
        Op::Open { init } => apply_open(m, init),
        Op::Mutate { bytes } => apply_mutate(m, bytes),
        Op::Drop => apply_drop(m),
    }
}

/// The payload an operation carries.
pub open spec fn op_bytes(op: Op) -> Seq<u8> {
    match op {
        Op::Open { init } => init,
        Op::Mutate { bytes } => bytes,
        Op::Drop => Seq::empty(),
    }
}

/// The state after running a history of operations in their serialized
/// order.
pub open spec fn run(m: ResourceModel, ops: Seq<Op>) -> ResourceModel
    decreases ops.len(),
{
    if ops.len() == 0 {
        m
    } else {
        run(apply_op(m, ops[0]), ops.subrange(1, ops.len() as int))
    }
}

/// A history a real schedule can produce: a mutation or a drop is only
/// performed by a live holder, so it never occurs while no handle is
/// live.
pub open spec fn schedule_ok(m: ResourceModel, ops: Seq<Op>) -> bool
    decreases ops.len(),
{
    if ops.len() == 0 {
        true
    } else {
        &&& (ops[0] is Open || m.holders > 0)
        &&& schedule_ok(apply_op(m, ops[0]), ops.subrange(1, ops.len() as int))
    }
}

/// Whether every payload an operation carries is the serialization of
/// some value; real histories only ever write the codec's output.
pub open spec fn ops_encoded(ops: Seq<Op>) -> bool {
    forall|i: int|
        0 <= i < ops.len() ==> match #[trigger] ops[i] {
            Op::Open { init } => exists|v: u64| init == encoded(v),
            Op::Mutate { bytes } => exists|v: u64| bytes == encoded(v),
            Op::Drop => true,
        }
}

/// The empty state satisfies the invariant.
pub proof fn lemma_absent_inv()
    ensures
        inv(absent()),
{
}

/// An open preserves the invariant: whether it creates or attaches, the
/// counter and the holder count move together and the kernel objects
/// exist afterwards.
pub proof fn lemma_open_preserves_inv(m: ResourceModel, init: Seq<u8>)
    requires
        inv(m),
        exists|v: u64| init == encoded(v),
    ensures
        inv(apply_open(m, init)),
        apply_open(m, init).holders == m.holders + 1,
{
}

/// A mutation by a live holder preserves the invariant and moves no
/// count.
pub proof fn lemma_mutate_preserves_inv(m: ResourceModel, bytes: Seq<u8>)
    requires
        inv(m),
        m.holders > 0,
        exists|v: u64| bytes == encoded(v),
    ensures
        inv(apply_mutate(m, bytes)),
        apply_mutate(m, bytes).holders == m.holders,
{
}

/// A drop by a live holder preserves the invariant: either counts step
/// down together, or the last holder leaves the empty state.
pub proof fn lemma_drop_preserves_inv(m: ResourceModel)
    requires
        inv(m),
    ensures
        inv(apply_drop(m)),
{
}

/// Counter accuracy along any real history: the invariant holds at every
/// quiescent moment, so the counter's value always equals the number of
/// live handles.
pub proof fn lemma_run_preserves_inv(m: ResourceModel, ops: Seq<Op>)
    requires
        inv(m),
        schedule_ok(m, ops),
        ops_encoded(ops),
    ensures
        inv(run(m, ops)),
        run(m, ops).counter == run(m, ops).holders,
    decreases ops.len(),
{
    if ops.len() > 0 {
        let rest = ops.subrange(1, ops.len() as int);
        let m1 = apply_op(m, ops[0]);
        match ops[0] {
            Op::Open { init } => lemma_open_preserves_inv(m, init),
            Op::Mutate { bytes } => lemma_mutate_preserves_inv(m, bytes),
            Op::Drop => lemma_drop_preserves_inv(m),
        }
        assert(ops_encoded(rest)) by {
            assert(forall|i: int| 0 <= i < rest.len() ==> rest[i] == ops[i + 1]);
        }
        lemma_run_preserves_inv(m1, rest);
    }
}

/// Any real history from the empty state keeps the invariant: whatever
/// schedule of opens, mutations and drops the processes produce, at
/// every quiescent moment the counter equals the number of live handles
/// and the kernel objects exist exactly while one is live.
pub proof fn lemma_history_from_nothing(ops: Seq<Op>)
    requires
        schedule_ok(absent(), ops),
        ops_encoded(ops),
    ensures
        inv(run(absent(), ops)),
        run(absent(), ops).counter == run(absent(), ops).holders,
{
    lemma_absent_inv();
    lemma_run_preserves_inv(absent(), ops);
}

/// Lifetime: while a holder is live all three kernel names exist; the
/// drop of the last holder leaves every one of them absent.
pub proof fn lemma_lifetime(m: ResourceModel)
    requires
        inv(m),
    ensures
        m.holders > 0 ==> m.mutex_present && m.counter_present && m.segment_present,
        m.holders == 0 ==> !m.mutex_present && !m.counter_present && !m.segment_present,
        m.holders == 1 ==> apply_drop(m) == absent(),
{
}

proof fn lemma_run_append(m: ResourceModel, a: Seq<Op>, b: Seq<Op>)
    ensures
        run(m, a + b) == run(run(m, a), b),
    decreases a.len(),
{
    if a.len() == 0 {
        assert(a + b =~= b);
    } else {
        assert((a + b)[0] == a[0]);
        assert((a + b).subrange(1, (a + b).len() as int) =~= a.subrange(1, a.len() as int) + b);
        lemma_run_append(apply_op(m, a[0]), a.subrange(1, a.len() as int), b);
    }
}

proof fn lemma_run_single(m: ResourceModel, op: Op)
    ensures
        run(m, seq![op]) == apply_op(m, op),
{
    let single = seq![op];
    assert(single[0] == op);
    assert(single.subrange(1, 1) =~= Seq::<Op>::empty());
    assert(run(m, single) == run(apply_op(m, op), single.subrange(1, 1)));
}

proof fn lemma_run_snoc(m: ResourceModel, ops: Seq<Op>, op: Op)
    ensures
        run(m, ops.push(op)) == apply_op(run(m, ops), op),
{
    let single = seq![op];
    assert(ops.push(op) =~= ops + single);
    lemma_run_append(m, ops, single);
    lemma_run_single(run(m, ops), op);
}

proof fn lemma_live_run_keeps_payload(m: ResourceModel, ops: Seq<Op>)
    requires
        m.holders > 0,
        forall|j: int| 0 <= j < ops.len() ==> !(#[trigger] ops[j] is Mutate),
        forall|j: int| 1 <= j <= ops.len() ==> (#[trigger] run(m, ops.take(j))).holders > 0,
    ensures
        run(m, ops).payload == m.payload,
        run(m, ops).holders > 0,
    decreases ops.len(),
{
    if ops.len() == 0 {
    } else {
        let rest = ops.subrange(1, ops.len() as int);
        let m1 = apply_op(m, ops[0]);
        assert(ops.take(1) =~= seq![ops[0]]);
        lemma_run_single(m, ops[0]);
        assert(run(m, ops.take(1)) == m1);
        assert(m1.holders > 0);
        assert(m1.payload == m.payload);
        assert forall|j: int| 1 <= j <= rest.len() implies (#[trigger] run(
            m1,
            rest.take(j),
        )).holders > 0 by {
            assert(ops.take(j + 1)[0] == ops[0]);
            assert(ops.take(j + 1).subrange(1, j + 1) =~= rest.take(j));
            assert(run(m, ops.take(j + 1)) == run(m1, rest.take(j)));
            assert(run(m, ops.take(j + 1)).holders > 0);
        }
        lemma_live_run_keeps_payload(m1, rest);
    }
}

/// Serialization of access: the mutex forces all mutations into one
/// total order, and a read at any later point of a history in which the
/// resource stays live observes exactly the payload of the most recently
/// completed mutation, whatever attaches and detaches happen in between.
pub proof fn lemma_read_observes_last_mutate(m: ResourceModel, ops: Seq<Op>, k: int)
    requires
        0 <= k < ops.len(),
        ops[k] is Mutate,
        forall|j: int| k < j < ops.len() ==> !(#[trigger] ops[j] is Mutate),
        forall|j: int| k < j <= ops.len() ==> (#[trigger] run(m, ops.take(j))).holders > 0,
    ensures
        run(m, ops).payload == op_bytes(ops[k]),
{
    let pre = ops.take(k + 1);
    let suffix = ops.skip(k + 1);
    let m1 = run(m, pre);
    assert(pre =~= ops.take(k).push(ops[k]));
    lemma_run_snoc(m, ops.take(k), ops[k]);
    assert(m1.payload == op_bytes(ops[k]));
    assert(run(m, ops.take(k + 1)).holders > 0);
    assert forall|j: int| 1 <= j <= suffix.len() implies (#[trigger] run(
        m1,
        suffix.take(j),
    )).holders > 0 by {
        assert(ops.take(k + 1 + j) =~= pre + suffix.take(j));
        lemma_run_append(m, pre, suffix.take(j));
        assert(run(m, ops.take(k + 1 + j)).holders > 0);
    }
    assert forall|j: int| 0 <= j < suffix.len() implies !(#[trigger] suffix[j] is Mutate) by {
        assert(suffix[j] == ops[k + 1 + j]);
    }
    lemma_live_run_keeps_payload(m1, suffix);
    assert(ops =~= pre + suffix);
    lemma_run_append(m, pre, suffix);
}

/// Growth idempotence: mutating the payload to any other serialization
/// and then back leaves the payload region byte-equal to the original,
/// whatever the two lengths are.
pub proof fn lemma_growth_idempotent(m: ResourceModel, bytes: Seq<u8>)
    ensures
        apply_mutate(apply_mutate(m, bytes), m.payload).payload == m.payload,
        apply_mutate(apply_mutate(m, bytes), m.payload).holders == m.holders,
{
}

/// Round trip: opening a fresh name with a value leaves the payload at
/// that value's serialization, a later attach leaves it untouched, and
/// decoding it yields the value back - so a read on any holder returns
/// what the creator wrote.
pub proof fn lemma_open_read_round_trip(m: ResourceModel, v: u64)
    requires
        inv(m),
        m.holders == 0,
    ensures
        apply_open(m, encoded(v)).payload == encoded(v),
        decoded(apply_open(m, encoded(v)).payload) == v,
        forall|init: Seq<u8>|
            #![trigger apply_open(apply_open(m, encoded(v)), init)]
            apply_open(apply_open(m, encoded(v)), init).payload == encoded(v),
{
    lemma_codec_round_trip(v);
}

} // verus!
