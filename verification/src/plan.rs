//! The system-call plans of the protocol.
//!
//! Every composite operation of the resource - open, read, mutate, drop -
//! is a fixed sequence of system calls whose order the design prescribes.
//! This module states each sequence exactly: a plan is a vector of
//! `Action` values, the builder's contract pins every element, and the
//! proof functions state the ordering rules the design rests on (the
//! counter is incremented before the mutex is taken; the last holder
//! unlinks all three names while still holding the mutex; a non-final
//! detach unlinks nothing). An unverified executor performs the actions
//! in order and aborts on the first failure.

use vstd::prelude::*;

use crate::names::counter_name;
use crate::names::counter_name_of;
use crate::names::mutex_name;
use crate::names::mutex_name_of;
use crate::names::segment_name;
use crate::names::segment_name_of;
use crate::segment::fits_object;
use crate::segment::total_object_len;
use crate::segment::META_SIZE;

verus! {

/// One system call of the protocol, with the arguments the protocol
/// chooses for it.
pub enum Action {
    /// Create-or-attach the mutex semaphore under `name`, created with
    /// the given initial value when this process wins the create race.
    OpenMutex { name: String, init_value: u32 },
    /// Create-or-attach the counter semaphore under `name`, created with
    /// the given initial value when this process wins the create race.
    OpenCounter { name: String, init_value: u32 },
    /// Post the counter semaphore: one more live holder.
    IncrementCounter,
    /// Wait for the mutex semaphore, bounded by the lock deadline.
    LockMutex,
    /// Post the mutex semaphore.
    UnlockMutex,
    /// Create-or-attach the shared-memory object under `name`; the
    /// creator then follows the creator plan, a peer the peer plan.
    OpenSegment { name: String },
    /// Set the kernel object's length to `len` bytes.
    Truncate { len: u64 },
    /// Map the metadata region: `META_SIZE` bytes at file offset 0.
    MapMeta,
    /// Store `size` in the metadata region's length field.
    WriteMetaSize { size: u64 },
    /// Load the length field from the metadata region.
    ReadMetaSize,
    /// Map `len` payload bytes at file offset `offset`.
    MapPayload { len: u64, offset: u64 },
    /// Read `len` payload bytes at file offset `offset`.
    ReadPayload { len: u64, offset: u64 },
    /// Overwrite the payload region at file offset `offset` with `bytes`.
    WritePayload { bytes: Vec<u8>, offset: u64 },
    /// Resize the kernel object to `new_total` bytes and remap the
    /// payload region from `old_len` to `new_len` bytes.
    ResizePayload { old_len: u64, new_len: u64, new_total: u64 },
    /// Unmap the payload region of `len` bytes.
    UnmapPayload { len: u64 },
    /// Unmap the metadata region.
    UnmapMeta,
    /// Close the shared-memory file descriptor.
    CloseFd,
    /// Non-blocking wait on the counter semaphore: one holder fewer.
    DecrementCounter,
    /// Read the counter semaphore's value.
    ReadCounterValue,
    /// Close this process's counter descriptor.
    CloseCounter,
    /// Remove the counter's name from the kernel namespace.
    UnlinkCounter { name: String },
    /// Close this process's shared-memory handle: unmap both regions and
    /// close the descriptor, per the segment close plan.
    CloseSegment,
    /// Remove the shared-memory object's name from the kernel namespace.
    UnlinkSegment { name: String },
    /// Close this process's mutex descriptor.
    CloseMutex,
    /// Remove the mutex's name from the kernel namespace.
    UnlinkMutex { name: String },
}

/// The open sequence for a user name: open the mutex created unlocked,
/// open the counter created at zero, increment the counter, and only
/// then take the mutex, open the segment under it, and release it.
pub open spec fn is_open_plan(r: Seq<Action>, user: Seq<char>) -> bool {
    &&& r.len() == 6
    &&& (r[0] matches Action::OpenMutex { name, init_value } && name@ == mutex_name_of(user)
        && init_value == 1)
    &&& (r[1] matches Action::OpenCounter { name, init_value } && name@ == counter_name_of(user)
        && init_value == 0)
    &&& r[2] == Action::IncrementCounter
    &&& r[3] == Action::LockMutex
    &&& (r[4] matches Action::OpenSegment { name } && name@ == segment_name_of(user))
    &&& r[5] == Action::UnlockMutex
}

/// The open sequence for a user name.
pub fn open_plan(user: &str) -> (r: Vec<Action>)
    requires
        user.is_ascii(),
    ensures
        is_open_plan(r@, user@),
    {
    let mut v: Vec<Action> = Vec::new();
    v.push(Action::OpenMutex { name: mutex_name(user), init_value: 1 });
    v.push(Action::OpenCounter { name: counter_name(user), init_value: 0 });
    v.push(Action::IncrementCounter);
    v.push(Action::LockMutex);
    v.push(Action::OpenSegment { name: segment_name(user) });
    v.push(Action::UnlockMutex);
    v
}

/// In the open sequence the counter increment comes strictly before the
/// mutex is taken, and both occur. A racing peer that has just
/// decremented the counter to zero therefore observes the new holder
/// before it could decide to tear the resource down.
pub proof fn lemma_open_increments_before_lock(r: Seq<Action>, user: Seq<char>)
    requires
        is_open_plan(r, user),
    ensures
        exists|i: int, j: int|
            0 <= i < j < r.len() && #[trigger] r[i] is IncrementCounter && #[trigger] r[j] is LockMutex,
        forall|i: int, j: int|
            (0 <= i < r.len() && 0 <= j < r.len() && #[trigger] r[i] is IncrementCounter
                && #[trigger] r[j] is LockMutex) ==> i < j,
{
    assert(0 <= 2 < 3 < r.len() && r[2] is IncrementCounter && r[3] is LockMutex);
}

/// The prefix of the drop sequence, before the branch: take the mutex,
/// decrement the counter, then read its value to learn whether this
/// process is the last holder.
pub open spec fn is_drop_prefix_plan(r: Seq<Action>) -> bool {
    &&& r.len() == 3
    &&& r[0] == Action::LockMutex
    &&& r[1] == Action::DecrementCounter
    &&& r[2] == Action::ReadCounterValue
}

/// The prefix of the drop sequence, before the branch on the counter.
pub fn drop_prefix_plan() -> (r: Vec<Action>)
    ensures
        is_drop_prefix_plan(r@),
    {
    let mut v: Vec<Action> = Vec::new();
    v.push(Action::LockMutex);
    v.push(Action::DecrementCounter);
    v.push(Action::ReadCounterValue);
    v
}

/// The last holder's teardown: close and unlink the counter, close and
/// unlink the shared memory, close and unlink the mutex. The mutex is
/// never released: it is unlinked while still held, so no late attacher
/// can race into a partially destroyed resource.
pub open spec fn is_last_holder_teardown(r: Seq<Action>, user: Seq<char>) -> bool {
    &&& r.len() == 6
    &&& r[0] == Action::CloseCounter
    &&& (r[1] matches Action::UnlinkCounter { name } && name@ == counter_name_of(user))
    &&& r[2] == Action::CloseSegment
    &&& (r[3] matches Action::UnlinkSegment { name } && name@ == segment_name_of(user))
    &&& r[4] == Action::CloseMutex
    &&& (r[5] matches Action::UnlinkMutex { name } && name@ == mutex_name_of(user))
}

/// A non-final detach: close the counter, close the shared memory,
/// release the mutex and close it. Nothing is unlinked; the survivors
/// keep all three kernel objects.
pub open spec fn is_detach_teardown(r: Seq<Action>) -> bool {
    &&& r.len() == 4
    &&& r[0] == Action::CloseCounter
    &&& r[1] == Action::CloseSegment
    &&& r[2] == Action::UnlockMutex
    &&& r[3] == Action::CloseMutex
}

/// The branch of the drop sequence: the holder that decremented the
/// counter to zero is the last one and destroys all three kernel
/// objects; any other holder detaches and leaves them for the survivors.
pub fn teardown_plan(user: &str, counter_value: i32) -> (r: Vec<Action>)
    requires
        user.is_ascii(),
    ensures
        counter_value == 0 ==> is_last_holder_teardown(r@, user@),
        counter_value != 0 ==> is_detach_teardown(r@),
    {
    let mut v: Vec<Action> = Vec::new();
    if counter_value == 0 {
        v.push(Action::CloseCounter);
        v.push(Action::UnlinkCounter { name: counter_name(user) });
        v.push(Action::CloseSegment);
        v.push(Action::UnlinkSegment { name: segment_name(user) });
        v.push(Action::CloseMutex);
        v.push(Action::UnlinkMutex { name: mutex_name(user) });
    } else {
        v.push(Action::CloseCounter);
        v.push(Action::CloseSegment);
        v.push(Action::UnlockMutex);
        v.push(Action::CloseMutex);
    }
    v
}

/// The creator's initialization of a fresh segment: grow the object to
/// hold the metadata region and the payload, record the payload length
/// in the metadata, map the payload region, and copy the initial
/// serialization in.
pub open spec fn is_segment_creator_plan(r: Seq<Action>, payload: Seq<u8>) -> bool {
    &&& r.len() == 5
    &&& (r[0] matches Action::Truncate { len } && len == META_SIZE + payload.len())
    &&& r[1] == Action::MapMeta
    &&& (r[2] matches Action::WriteMetaSize { size } && size == payload.len())
    &&& (r[3] matches Action::MapPayload { len, offset } && len == payload.len() && offset
        == META_SIZE)
    &&& (r[4] matches Action::WritePayload { bytes, offset } && bytes@ == payload && offset
        == META_SIZE)
}

/// The creator's initialization of a fresh segment with the given
/// initial payload.
pub fn segment_creator_plan(payload: Vec<u8>) -> (r: Vec<Action>)
    requires
        fits_object(payload.len() as u64),
    ensures
        is_segment_creator_plan(r@, payload@),
    {
    let len: u64 = payload.len() as u64;
    let mut v: Vec<Action> = Vec::new();
    v.push(Action::Truncate { len: total_object_len(len) });
    v.push(Action::MapMeta);
    v.push(Action::WriteMetaSize { size: len });
    v.push(Action::MapPayload { len, offset: META_SIZE });
    v.push(Action::WritePayload { bytes: payload, offset: META_SIZE });
    v
}

/// A peer's attach to an initialized segment, before the payload length
/// is known: map the metadata region and read the length.
pub open spec fn is_segment_peer_prefix_plan(r: Seq<Action>) -> bool {
    &&& r.len() == 2
    &&& r[0] == Action::MapMeta
    &&& r[1] == Action::ReadMetaSize
}

/// A peer's attach to an initialized segment, before the payload length
/// is known.
pub fn segment_peer_prefix_plan() -> (r: Vec<Action>)
    ensures
        is_segment_peer_prefix_plan(r@),
    {
    let mut v: Vec<Action> = Vec::new();
    v.push(Action::MapMeta);
    v.push(Action::ReadMetaSize);
    v
}

/// A peer's payload mapping, once the metadata told it the current
/// payload length: the peer re-derives its own mapping rather than
/// trusting any address another process may have stored.
pub fn segment_peer_payload_action(size: u64) -> (r: Action)
    ensures
        (r matches Action::MapPayload { len, offset } && len == size && offset == META_SIZE),
    {
    Action::MapPayload { len: size, offset: META_SIZE }
}

/// Closing this process's view of the segment: unmap the payload region,
/// unmap the metadata region, close the descriptor. No kernel name is
/// touched.
pub open spec fn is_segment_close_plan(r: Seq<Action>, payload_len: u64) -> bool {
    &&& r.len() == 3
    &&& (r[0] matches Action::UnmapPayload { len } && len == payload_len)
    &&& r[1] == Action::UnmapMeta
    &&& r[2] == Action::CloseFd
}

/// Closing this process's view of the segment.
pub fn segment_close_plan(payload_len: u64) -> (r: Vec<Action>)
    ensures
        is_segment_close_plan(r@, payload_len),
    {
    let mut v: Vec<Action> = Vec::new();
    v.push(Action::UnmapPayload { len: payload_len });
    v.push(Action::UnmapMeta);
    v.push(Action::CloseFd);
    v
}

/// The shared prefix of `read` and `mutate`: take the mutex, then learn
/// the current payload length from the metadata region. The length is
/// read only under the mutex - a length read racing with a resize would
/// be unsafe.
pub open spec fn is_access_prefix_plan(r: Seq<Action>) -> bool {
    &&& r.len() == 2
    &&& r[0] == Action::LockMutex
    &&& r[1] == Action::ReadMetaSize
}

/// The shared prefix of `read` and `mutate`.
pub fn access_prefix_plan() -> (r: Vec<Action>)
    ensures
        is_access_prefix_plan(r@),
    {
    let mut v: Vec<Action> = Vec::new();
    v.push(Action::LockMutex);
    v.push(Action::ReadMetaSize);
    v
}

/// The payload read of `read` and `mutate`, once the current length is
/// known: the exact byte count of the payload region, at its offset.
pub fn read_payload_action(size: u64) -> (r: Action)
    ensures
        (r matches Action::ReadPayload { len, offset } && len == size && offset == META_SIZE),
    {
    Action::ReadPayload { len: size, offset: META_SIZE }
}

/// The release of the mutex that ends a `read`.
pub fn unlock_action() -> (r: Action)
    ensures
        r == Action::UnlockMutex,
    {
    Action::UnlockMutex
}

/// The write half of `mutate`, from the current payload length and the
/// new serialization: overwrite in place when the length is unchanged,
/// otherwise resize the object and remap the payload region first, then
/// record the new length and write the bytes; release the mutex last.
pub open spec fn is_mutate_write_plan(r: Seq<Action>, current_size: u64, bytes: Seq<u8>) -> bool {
    if bytes.len() == current_size {
        &&& r.len() == 2
        &&& (r[0] matches Action::WritePayload { bytes: b, offset } && b@ == bytes && offset
            == META_SIZE)
        &&& r[1] == Action::UnlockMutex
    } else {
        &&& r.len() == 4
        &&& (r[0] matches Action::ResizePayload { old_len, new_len, new_total } && old_len
            == current_size && new_len == bytes.len() && new_total == META_SIZE + bytes.len())
        &&& (r[1] matches Action::WriteMetaSize { size } && size == bytes.len())
        &&& (r[2] matches Action::WritePayload { bytes: b, offset } && b@ == bytes && offset
            == META_SIZE)
        &&& r[3] == Action::UnlockMutex
    }
}

/// The write half of `mutate`.
pub fn mutate_write_plan(current_size: u64, bytes: Vec<u8>) -> (r: Vec<Action>)
    requires
        fits_object(bytes.len() as u64),
    ensures
        is_mutate_write_plan(r@, current_size, bytes@),
    {
    let len: u64 = bytes.len() as u64;
    let mut v: Vec<Action> = Vec::new();
    if len != current_size {
        v.push(Action::ResizePayload {
            old_len: current_size,
            new_len: len,
            new_total: total_object_len(len),
        });
        v.push(Action::WriteMetaSize { size: len });
    }
    v.push(Action::WritePayload { bytes, offset: META_SIZE });
    v.push(Action::UnlockMutex);
    v
}

/// The kernel namespaces' reaction to one action: a create-or-attach
/// ensures the name exists, an unlink removes it, and every other
/// action leaves the namespaces alone.
pub open spec fn names_effect(ns: Set<Seq<char>>, a: Action) -> Set<Seq<char>> {
    match a {
        Action::OpenMutex { name, .. } => ns.insert(name@),
        Action::OpenCounter { name, .. } => ns.insert(name@),
        Action::OpenSegment { name } => ns.insert(name@),
        Action::UnlinkCounter { name } => ns.remove(name@),
        Action::UnlinkSegment { name } => ns.remove(name@),
        Action::UnlinkMutex { name } => ns.remove(name@),
        _ => ns,
    }
}

/// The kernel namespaces after a plan runs, action by action.
pub open spec fn names_after(ns: Set<Seq<char>>, r: Seq<Action>) -> Set<Seq<char>>
    decreases r.len(),
{
    if r.len() == 0 {
        ns
    } else {
        names_after(names_effect(ns, r[0]), r.subrange(1, r.len() as int))
    }
}

/// After the open sequence all three decorated names of the user name
/// exist in the kernel namespaces, and no other name was touched.
pub proof fn lemma_open_plan_names(ns: Set<Seq<char>>, r: Seq<Action>, user: Seq<char>)
    requires
        is_open_plan(r, user),
    ensures
        names_after(ns, r) == ns.insert(mutex_name_of(user)).insert(counter_name_of(user)).insert(
            segment_name_of(user),
        ),
        names_after(ns, r).contains(mutex_name_of(user)),
        names_after(ns, r).contains(counter_name_of(user)),
        names_after(ns, r).contains(segment_name_of(user)),
{
    let s1 = r.subrange(1, 6);
    let s2 = r.subrange(2, 6);
    let s3 = r.subrange(3, 6);
    let s4 = r.subrange(4, 6);
    let s5 = r.subrange(5, 6);
    let s6 = r.subrange(6, 6);
    assert(s1.subrange(1, 5) =~= s2);
    assert(s2.subrange(1, 4) =~= s3);
    assert(s3.subrange(1, 3) =~= s4);
    assert(s4.subrange(1, 2) =~= s5);
    assert(s5.subrange(1, 1) =~= s6);
    assert(s1[0] == r[1] && s2[0] == r[2] && s3[0] == r[3] && s4[0] == r[4] && s5[0] == r[5]);
    let m = mutex_name_of(user);
    let c = counter_name_of(user);
    let s = segment_name_of(user);
    assert(names_after(ns, r) == names_after(ns.insert(m), s1));
    assert(names_after(ns.insert(m), s1) == names_after(ns.insert(m).insert(c), s2));
    assert(names_after(ns.insert(m).insert(c), s2) == names_after(ns.insert(m).insert(c), s3));
    assert(names_after(ns.insert(m).insert(c), s3) == names_after(ns.insert(m).insert(c), s4));
    assert(names_after(ns.insert(m).insert(c), s4) == names_after(
        ns.insert(m).insert(c).insert(s),
        s5,
    ));
    assert(names_after(ns.insert(m).insert(c).insert(s), s6) == ns.insert(m).insert(c).insert(s));
    assert(names_after(ns.insert(m).insert(c).insert(s), s5) == ns.insert(m).insert(c).insert(s));
}

/// After the last holder's teardown every one of the three decorated
/// names is absent from its kernel namespace, and no other name was
/// touched; the mutex is never released on the way - it is unlinked
/// while still held, so no late attacher can race into a partially
/// destroyed resource.
pub proof fn lemma_last_holder_teardown_names(ns: Set<Seq<char>>, r: Seq<Action>, user: Seq<char>)
    requires
        is_last_holder_teardown(r, user),
    ensures
        names_after(ns, r) == ns.remove(counter_name_of(user)).remove(segment_name_of(user)).remove(
            mutex_name_of(user),
        ),
        !names_after(ns, r).contains(mutex_name_of(user)),
        !names_after(ns, r).contains(counter_name_of(user)),
        !names_after(ns, r).contains(segment_name_of(user)),
        forall|i: int| 0 <= i < r.len() ==> !(#[trigger] r[i] is UnlockMutex),
{
    let s1 = r.subrange(1, 6);
    let s2 = r.subrange(2, 6);
    let s3 = r.subrange(3, 6);
    let s4 = r.subrange(4, 6);
    let s5 = r.subrange(5, 6);
    let s6 = r.subrange(6, 6);
    assert(s1.subrange(1, 5) =~= s2);
    assert(s2.subrange(1, 4) =~= s3);
    assert(s3.subrange(1, 3) =~= s4);
    assert(s4.subrange(1, 2) =~= s5);
    assert(s5.subrange(1, 1) =~= s6);
    assert(s1[0] == r[1] && s2[0] == r[2] && s3[0] == r[3] && s4[0] == r[4] && s5[0] == r[5]);
    let m = mutex_name_of(user);
    let c = counter_name_of(user);
    let s = segment_name_of(user);
    assert(names_after(ns, r) == names_after(ns, s1));
    assert(names_after(ns, s1) == names_after(ns.remove(c), s2));
    assert(names_after(ns.remove(c), s2) == names_after(ns.remove(c), s3));
    assert(names_after(ns.remove(c), s3) == names_after(ns.remove(c).remove(s), s4));
    assert(names_after(ns.remove(c).remove(s), s4) == names_after(ns.remove(c).remove(s), s5));
    assert(names_after(ns.remove(c).remove(s).remove(m), s6) == ns.remove(c).remove(s).remove(m));
    assert(names_after(ns.remove(c).remove(s), s5) == ns.remove(c).remove(s).remove(m));
}

/// A non-final detach leaves the kernel namespaces exactly as they
/// were, and releases the mutex, so the surviving holders find the
/// resource intact and unlocked.
pub proof fn lemma_detach_teardown_names(ns: Set<Seq<char>>, r: Seq<Action>)
    requires
        is_detach_teardown(r),
    ensures
        names_after(ns, r) == ns,
        exists|i: int| 0 <= i < r.len() && #[trigger] r[i] is UnlockMutex,
{
    assert(0 <= 2 < r.len() && r[2] is UnlockMutex);
    let s1 = r.subrange(1, 4);
    let s2 = r.subrange(2, 4);
    let s3 = r.subrange(3, 4);
    let s4 = r.subrange(4, 4);
    assert(s1.subrange(1, 3) =~= s2);
    assert(s2.subrange(1, 2) =~= s3);
    assert(s3.subrange(1, 1) =~= s4);
    assert(s1[0] == r[1] && s2[0] == r[2] && s3[0] == r[3]);
    assert(names_after(ns, r) == names_after(ns, s1));
    assert(names_after(ns, s1) == names_after(ns, s2));
    assert(names_after(ns, s2) == names_after(ns, s3));
    assert(names_after(ns, s4) == ns);
    assert(names_after(ns, s3) == ns);
}

/// Every plan of the protocol releases the mutex exactly once after the
/// work under it, or, in the last holder's teardown, not at all; in the
/// write half of `mutate` the release is the final action even when the
/// write failed before it, which is why the executor must still perform
/// the trailing release on an aborted write.
pub proof fn lemma_mutate_write_unlocks_last(r: Seq<Action>, current_size: u64, bytes: Seq<u8>)
    requires
        is_mutate_write_plan(r, current_size, bytes),
    ensures
        r.len() > 0,
        r[r.len() - 1] is UnlockMutex,
        forall|i: int| 0 <= i < r.len() - 1 ==> !(#[trigger] r[i] is UnlockMutex),
{
}

} // verus!
