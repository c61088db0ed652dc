//! Host operating-system support.
//!
//! The protocol runs only on POSIX hosts with named semaphores and named
//! shared memory; the supported set is Linux and macOS. Opening a
//! resource on any other host fails with `UnsupportedOS`. The `errno`
//! codes the protocol branches on are fixed by each supported system's
//! ABI: `EEXIST` is 17 on both, `EAGAIN` is 11 on Linux and 35 on macOS.

use vstd::prelude::*;
use vstd::string::StringExecFns;

use crate::error::Error;

verus! {

/// A supported host operating system.
#[derive(Clone, Copy, PartialEq, Eq, Structural, Debug)]
pub enum HostOs {
    Linux,
    MacOs,
}

/// The `errno` reported when an exclusive create finds the name already
/// in use; the same code on every supported host.
pub const EEXIST_ERRNO: i32 = 17;

/// The `errno` reported by a non-blocking semaphore wait that would
/// block, on the given host.
pub open spec fn eagain_errno_of(os: HostOs) -> i32 {
    match os {
        HostOs::Linux => 11,
        HostOs::MacOs => 35,
    }
}

/// The `errno` reported by a non-blocking semaphore wait that would
/// block, on the given host.
pub fn eagain_errno(os: HostOs) -> (r: i32)
    ensures
        r == eagain_errno_of(os),
{
    match os {
        HostOs::Linux => 11,
        HostOs::MacOs => 35,
    }
}

/// The supported host named by an operating-system name, if any.
pub fn host_os_from_name(os: &str) -> (r: Option<HostOs>)
    ensures
        os@ == "linux"@ ==> r == Some(HostOs::Linux),
        os@ == "macos"@ ==> r == Some(HostOs::MacOs),
        os@ != "linux"@ && os@ != "macos"@ ==> r is None,
    {
    proof {
        reveal_strlit("linux");
        reveal_strlit("macos");
        assert(("linux"@)[0] != ("macos"@)[0]);
    }
    let s = os.to_owned();
    if s.eq(&String::from_str("linux")) {
        Some(HostOs::Linux)
    } else if s.eq(&String::from_str("macos")) {
        Some(HostOs::MacOs)
    } else {
        None
    }
}

/// The host check made by `open`: the supported host named by the
/// operating-system name, or `UnsupportedOS` for any other name.
pub fn check_host_os(os: &str) -> (r: Result<HostOs, Error>)
    ensures
        os@ == "linux"@ ==> r == Ok::<HostOs, Error>(HostOs::Linux),
        os@ == "macos"@ ==> r == Ok::<HostOs, Error>(HostOs::MacOs),
        os@ != "linux"@ && os@ != "macos"@ ==> r == Err::<HostOs, Error>(Error::UnsupportedOS),
    {
    match host_os_from_name(os) {
        Some(h) => Ok(h),
        None => Err(Error::UnsupportedOS),
    }
}

} // verus!
