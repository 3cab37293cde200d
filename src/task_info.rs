//! Information about the task of a process.

use vstd::prelude::*;
use crate::bsd_info::BSDInfo;
use crate::proc_pid::{PIDInfo, PidInfoFlavor};

verus! {

/// struct `proc_taskinfo`
pub struct TaskInfo {
    /// Virtual memory size in bytes
    pub pti_virtual_size: u64,
    /// Resident memory size in bytes
    pub pti_resident_size: u64,
    /// Total user time
    pub pti_total_user: u64,
    /// Total system time
    pub pti_total_system: u64,
    /// Existing threads only, user
    pub pti_threads_user: u64,
    /// Existing threads only, system
    pub pti_threads_system: u64,
    /// Default policy for new threads
    pub pti_policy: i32,
    /// Number of page faults
    pub pti_faults: i32,
    /// Number of actual pageins
    pub pti_pageins: i32,
    /// Number of copy-on-write faults
    pub pti_cow_faults: i32,
    /// Number of messages sent
    pub pti_messages_sent: i32,
    /// Number of messages received
    pub pti_messages_received: i32,
    /// Number of mach system calls
    pub pti_syscalls_mach: i32,
    /// Number of unix system calls
    pub pti_syscalls_unix: i32,
    /// Number of context switches
    pub pti_csw: i32,
    /// Number of threads in the task
    pub pti_threadnum: i32,
    /// Number of running threads
    pub pti_numrunning: i32,
    /// Task priority
    pub pti_priority: i32,
}

impl PIDInfo for TaskInfo {
    open spec fn spec_flavor() -> PidInfoFlavor {
        PidInfoFlavor::TaskInfo
    }

    fn flavor() -> (r: PidInfoFlavor) {
        PidInfoFlavor::TaskInfo
    }
}

/// Struct for info on all Tasks
pub struct TaskAllInfo {
    /// `BSDInfo`
    pub pbsd: BSDInfo,
    /// `TaskInfo`
    pub ptinfo: TaskInfo,
}

impl PIDInfo for TaskAllInfo {
    open spec fn spec_flavor() -> PidInfoFlavor {
        PidInfoFlavor::TaskAllInfo
    }

    fn flavor() -> (r: PidInfoFlavor) {
        PidInfoFlavor::TaskAllInfo
    }
}

} // verus!
