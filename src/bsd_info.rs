//! BSD-level information about a process.

use vstd::prelude::*;
use crate::proc_pid::{PIDInfo, PidInfoFlavor};

verus! {

/// struct `proc_bsdinfo`
pub struct BSDInfo {
    /// Flags
    pub pbi_flags: u32,
    /// Status
    pub pbi_status: u32,
    /// Exit status
    pub pbi_xstatus: u32,
    /// Process id
    pub pbi_pid: u32,
    /// Parent process id
    pub pbi_ppid: u32,
    /// Effective user id
    pub pbi_uid: u32,
    /// Effective group id
    pub pbi_gid: u32,
    /// Real user id
    pub pbi_ruid: u32,
    /// Real group id
    pub pbi_rgid: u32,
    /// Saved user id
    pub pbi_svuid: u32,
    /// Saved group id
    pub pbi_svgid: u32,
    /// Reserved for future use
    pub rfu_1: u32,
    /// Command name
    pub pbi_comm: [i8; 16],
    /// Process name
    pub pbi_name: [i8; 32],
    /// Number of open files
    pub pbi_nfiles: u32,
    /// Process group id
    pub pbi_pgid: u32,
    /// Job control count
    pub pbi_pjobc: u32,
    /// Controlling terminal device
    pub e_tdev: u32,
    /// Controlling terminal process group id
    pub e_tpgid: u32,
    /// Nice value
    pub pbi_nice: i32,
    /// Start time, seconds
    pub pbi_start_tvsec: u64,
    /// Start time, microseconds
    pub pbi_start_tvusec: u64,
}

impl PIDInfo for BSDInfo {
    open spec fn spec_flavor() -> PidInfoFlavor {
        PidInfoFlavor::TBSDInfo
    }

    fn flavor() -> (r: PidInfoFlavor) {
        PidInfoFlavor::TBSDInfo
    }
}

} // verus!
