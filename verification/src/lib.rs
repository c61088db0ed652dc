//! A shared, typed resource for cooperating POSIX processes.
//!
//! A process obtains a handle to a named resource; any holder may perform
//! serialized read or read-modify-write access to a logical value kept in
//! POSIX shared memory. Mutual exclusion across processes is enforced by a
//! named semaphore used as a mutex, and lifetime is managed by a second
//! named semaphore used as an attach counter: the last holder to detach
//! unlinks all three kernel objects.
//!
//! This crate is the verified core of that protocol. It computes every
//! decision the protocol makes - the decorated kernel names, the codec
//! contracts, the segment layout, the create-or-attach and teardown
//! branches, and the exact ordering of the system calls - and proves the
//! protocol's invariants over a model of the shared state. The system
//! calls themselves (`sem_open`, `shm_open`, `mmap` and their kin) are
//! performed by a thin unverified executor that follows the plans this
//! crate produces.

pub mod codec;
pub mod error;
pub mod host;
pub mod model;
pub mod names;
pub mod plan;
pub mod segment;
pub mod semaphore;
