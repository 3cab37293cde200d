//! Information about the threads of a process.

use vstd::prelude::*;
use crate::proc_pid::{PIDInfo, PidInfoFlavor};

verus! {

/// struct `proc_threadinfo`
pub struct ThreadInfo {
    /// User run time
    pub pth_user_time: u64,
    /// System run time
    pub pth_system_time: u64,
    /// Scaled cpu usage percentage
    pub pth_cpu_usage: i32,
    /// Scheduling policy in effect
    pub pth_policy: i32,
    /// Run state
    pub pth_run_state: i32,
    /// Various flags
    pub pth_flags: i32,
    /// Number of seconds that the thread has slept
    pub pth_sleep_time: i32,
    /// Current priority
    pub pth_curpri: i32,
    /// Priority
    pub pth_priority: i32,
    /// Maximum priority
    pub pth_maxpriority: i32,
    /// Thread name
    pub pth_name: [i8; 64],
}

impl PIDInfo for ThreadInfo {
    open spec fn spec_flavor() -> PidInfoFlavor {
        PidInfoFlavor::ThreadInfo
    }

    fn flavor() -> (r: PidInfoFlavor) {
        PidInfoFlavor::ThreadInfo
    }
}

} // verus!
