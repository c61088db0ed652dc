//! The error taxonomy of the library.
//!
//! Every failure surfaced to a caller of `open`, `read` or `mutate` is one
//! of these variants. Semaphore and shared-memory failures carry the
//! `errno` reported by the failing system call together with its rendered
//! message; codec failures carry the codec's message; `UnsupportedOS` is
//! returned when the host is not a supported POSIX system.

use vstd::prelude::*;

verus! {

/// An error of the shared-resource protocol.
#[derive(Debug)]
pub enum Error {
    /// A mutex or counter operation failed at the OS layer,
    /// including a lock timeout.
    SemaphoreError(i32, String),
    /// A shared-memory system call failed.
    SharedMemoryError(i32, String),
    /// Serialization or deserialization of the logical value failed.
    CodecError(String),
    /// The host operating system is not supported.
    UnsupportedOS,
}

impl Error {
    /// Build the error for a failed semaphore operation from the `errno`
    /// it reported and its rendered message.
    pub fn sem_error(errno: i32, message: String) -> (r: Error)
        ensures
            (r matches Error::SemaphoreError(e, m) && e == errno && m@ == message@),
    {
        Error::SemaphoreError(errno, message)
    }

    /// Build the error for a failed shared-memory operation from the
    /// `errno` it reported and its rendered message.
    pub fn shm_error(errno: i32, message: String) -> (r: Error)
        ensures
            (r matches Error::SharedMemoryError(e, m) && e == errno && m@ == message@),
    {
        Error::SharedMemoryError(errno, message)
    }

    /// True exactly of `SemaphoreError`.
    pub fn is_semaphore_error(&self) -> (r: bool)
        ensures
            r == (self is SemaphoreError),
    {
        match self {
            Error::SemaphoreError(_, _) => true,
            _ => false,
        }
    }

    /// True exactly of `SharedMemoryError`.
    pub fn is_shared_memory_error(&self) -> (r: bool)
        ensures
            r == (self is SharedMemoryError),
    {
        match self {
            Error::SharedMemoryError(_, _) => true,
            _ => false,
        }
    }

    /// True exactly of `CodecError`.
    pub fn is_codec_error(&self) -> (r: bool)
        ensures
            r == (self is CodecError),
    {
        match self {
            Error::CodecError(_) => true,
            _ => false,
        }
    }

    /// True exactly of `UnsupportedOS`.
    pub fn is_unsupported_os(&self) -> (r: bool)
        ensures
            r == (self is UnsupportedOS),
    {
        match self {
            Error::UnsupportedOS => true,
            _ => false,
        }
    }
}

} // verus!
