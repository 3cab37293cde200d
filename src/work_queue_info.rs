//! Information about the work queue of a process.

use vstd::prelude::*;
use crate::proc_pid::{PIDInfo, PidInfoFlavor};

verus! {

/// Structure for work queue items
#[derive(Default)]
pub struct WorkQueueInfo {
    /// total number of workqueue threads
    pub pwq_nthreads: u32,
    /// total number of running workqueue threads
    pub pwq_runthreads: u32,
    /// total number of blocked workqueue threads
    pub pwq_blockedthreads: u32,
    /// reserved for future use
    pub reserved: [u32; 1],
}

impl PIDInfo for WorkQueueInfo {
    open spec fn spec_flavor() -> PidInfoFlavor {
        PidInfoFlavor::WorkQueueInfo
    }

    fn flavor() -> (r: PidInfoFlavor) {
        PidInfoFlavor::WorkQueueInfo
    }
}

} // verus!
