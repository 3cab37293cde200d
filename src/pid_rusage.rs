//! Resource usage of processes, in records of growing versions: each version
//! holds the fields of the one before it, in the same order, and more.

use vstd::prelude::*;
use crate::helpers::{
    errno_text, get_errno_with_message, procfile_field_in, procfile_field_spec,
    field_not_found_text, memory_string_spec, parse_memory_string,
};

verus! {

/// A resource usage record, with the flavor that asks for it and the amount
/// of memory that it reports.
pub trait PIDRUsage: Default {
    spec fn spec_flavor() -> PidRUsageFlavor;

    spec fn spec_memory_used(&self) -> u64;

    /// Return the `PidRUsageFlavor` for the implementing struct
    fn flavor() -> (r: PidRUsageFlavor)
        ensures
            r == Self::spec_flavor(),
    ;

    /// Memory used in bytes
    fn memory_used(&self) -> (r: u64)
        ensures
            r == self.spec_memory_used(),
    ;

    /// Memory used in bytes
    fn set_memory_used(&mut self, used: u64)
        ensures
            final(self).spec_memory_used() == used,
    ;
}

/// The version of a resource usage record.
#[derive(Copy, Clone, Debug, PartialEq, Eq)]
pub enum PidRUsageFlavor {
    /// Version 0
    V0,
    /// Version 1
    V1,
    /// Version 2
    V2,
    /// Version 3
    V3,
    /// Version 4
    V4,
}

impl PidRUsageFlavor {
    pub open spec fn spec_code(self) -> i32 {
        match self {
            PidRUsageFlavor::V0 => 0,
            PidRUsageFlavor::V1 => 1,
            PidRUsageFlavor::V2 => 2,
            PidRUsageFlavor::V3 => 3,
            PidRUsageFlavor::V4 => 4,
        }
    }

    /// The flavor code that the native usage call takes.
    pub fn code(self) -> (r: i32)
        ensures
            r == self.spec_code(),
    {
        match self {
            PidRUsageFlavor::V0 => 0,
            PidRUsageFlavor::V1 => 1,
            PidRUsageFlavor::V2 => 2,
            PidRUsageFlavor::V3 => 3,
            PidRUsageFlavor::V4 => 4,
        }
    }
}

/// C struct for Resource Usage Version 0
#[derive(Default)]
pub struct RUsageInfoV0 {
    /// Unique user id
    pub ri_uuid: [u8; 16],
    /// User time used
    pub ri_user_time: u64,
    /// System time used
    pub ri_system_time: u64,
    /// Wakeups from idle
    pub ri_pkg_idle_wkups: u64,
    /// Interrupt wakeups
    pub ri_interrupt_wkups: u64,
    /// Number of pageins
    pub ri_pageins: u64,
    /// Wired size
    pub ri_wired_size: u64,
    /// Resident size
    pub ri_resident_size: u64,
    /// Physical footprint
    pub ri_phys_footprint: u64,
    /// Process start time
    pub ri_proc_start_abstime: u64,
    /// Process exit time
    pub ri_proc_exit_abstime: u64,
}

impl PIDRUsage for RUsageInfoV0 {
    open spec fn spec_flavor() -> PidRUsageFlavor {
        PidRUsageFlavor::V0
    }

    open spec fn spec_memory_used(&self) -> u64 {
        self.ri_resident_size
    }

    fn flavor() -> (r: PidRUsageFlavor) {
        PidRUsageFlavor::V0
    }

    fn memory_used(&self) -> (r: u64) {
        self.ri_resident_size
    }

    fn set_memory_used(&mut self, used: u64) {
        self.ri_resident_size = used;
    }
}

/// C struct for Resource Usage Version 1
#[derive(Default)]
pub struct RUsageInfoV1 {
    /// Unique user id
    pub ri_uuid: [u8; 16],
    /// User time used
    pub ri_user_time: u64,
    /// System time used
    pub ri_system_time: u64,
    /// Wakeups from idle
    pub ri_pkg_idle_wkups: u64,
    /// Interrupt wakeups
    pub ri_interrupt_wkups: u64,
    /// Number of pageins
    pub ri_pageins: u64,
    /// Wired size
    pub ri_wired_size: u64,
    /// Resident size
    pub ri_resident_size: u64,
    /// Physical footprint
    pub ri_phys_footprint: u64,
    /// Process start time
    pub ri_proc_start_abstime: u64,
    /// Process exit time
    pub ri_proc_exit_abstime: u64,
    /// Child user time
    pub ri_child_user_time: u64,
    /// Child system time
    pub ri_child_system_time: u64,
    /// Child wakeups from idle
    pub ri_child_pkg_idle_wkups: u64,
    /// Child interrupt wakeups
    pub ri_child_interrupt_wkups: u64,
    /// Child pageins
    pub ri_child_pageins: u64,
    /// Child elapse time
    pub ri_child_elapsed_abstime: u64,
}

impl PIDRUsage for RUsageInfoV1 {
    open spec fn spec_flavor() -> PidRUsageFlavor {
        PidRUsageFlavor::V1
    }

    open spec fn spec_memory_used(&self) -> u64 {
        self.ri_resident_size
    }

    fn flavor() -> (r: PidRUsageFlavor) {
        PidRUsageFlavor::V1
    }

    fn memory_used(&self) -> (r: u64) {
        self.ri_resident_size
    }

    fn set_memory_used(&mut self, used: u64) {
        self.ri_resident_size = used;
    }
}

/// C struct for Resource Usage Version 2
#[derive(Debug, Default)]
pub struct RUsageInfoV2 {
    /// Unique user id
    pub ri_uuid: [u8; 16],
    /// User time used
    pub ri_user_time: u64,
    /// System time used
    pub ri_system_time: u64,
    /// Wakeups from idle
    pub ri_pkg_idle_wkups: u64,
    /// Interrupt wakeups
    pub ri_interrupt_wkups: u64,
    /// Number of pageins
    pub ri_pageins: u64,
    /// Wired size
    pub ri_wired_size: u64,
    /// Resident size
    pub ri_resident_size: u64,
    /// Physical footprint
    pub ri_phys_footprint: u64,
    /// Process start time
    pub ri_proc_start_abstime: u64,
    /// Process exit time
    pub ri_proc_exit_abstime: u64,
    /// Child user time
    pub ri_child_user_time: u64,
    /// Child system time
    pub ri_child_system_time: u64,
    /// Child wakeups from idle
    pub ri_child_pkg_idle_wkups: u64,
    /// Child interrupt wakeups
    pub ri_child_interrupt_wkups: u64,
    /// Child pageins
    pub ri_child_pageins: u64,
    /// Child elapse time
    pub ri_child_elapsed_abstime: u64,
    /// Disk IO bytes read
    pub ri_diskio_bytesread: u64,
    /// Disk IO bytes written
    pub ri_diskio_byteswritten: u64,
}

impl PIDRUsage for RUsageInfoV2 {
    open spec fn spec_flavor() -> PidRUsageFlavor {
        PidRUsageFlavor::V2
    }

    open spec fn spec_memory_used(&self) -> u64 {
        self.ri_resident_size
    }

    fn flavor() -> (r: PidRUsageFlavor) {
        PidRUsageFlavor::V2
    }

    fn memory_used(&self) -> (r: u64) {
        self.ri_resident_size
    }

    fn set_memory_used(&mut self, used: u64) {
        self.ri_resident_size = used;
    }
}

/// C struct for Resource Usage Version 3
#[derive(Default)]
pub struct RUsageInfoV3 {
    /// Unique user id
    pub ri_uuid: [u8; 16],
    /// User time used
    pub ri_user_time: u64,
    /// System time used
    pub ri_system_time: u64,
    /// Wakeups from idle
    pub ri_pkg_idle_wkups: u64,
    /// Interrupt wakeups
    pub ri_interrupt_wkups: u64,
    /// Number of pageins
    pub ri_pageins: u64,
    /// Wired size
    pub ri_wired_size: u64,
    /// Resident size
    pub ri_resident_size: u64,
    /// Physical footprint
    pub ri_phys_footprint: u64,
    /// Process start time
    pub ri_proc_start_abstime: u64,
    /// Process exit time
    pub ri_proc_exit_abstime: u64,
    /// Child user time
    pub ri_child_user_time: u64,
    /// Child system time
    pub ri_child_system_time: u64,
    /// Child wakeups from idle
    pub ri_child_pkg_idle_wkups: u64,
    /// Child interrupt wakeups
    pub ri_child_interrupt_wkups: u64,
    /// Child pageins
    pub ri_child_pageins: u64,
    /// Child elapse time
    pub ri_child_elapsed_abstime: u64,
    /// Disk IO bytes read
    pub ri_diskio_bytesread: u64,
    /// Disk IO bytes written
    pub ri_diskio_byteswritten: u64,
    /// CPU time QOS default
    pub ri_cpu_time_qos_default: u64,
    /// CPU time QOS maintenance
    pub ri_cpu_time_qos_maintenance: u64,
    /// CPU time QOS background
    pub ri_cpu_time_qos_background: u64,
    /// CPU time QOS utility
    pub ri_cpu_time_qos_utility: u64,
    /// CPU time QOS legacy
    pub ri_cpu_time_qos_legacy: u64,
    /// CPU time QOS user initiated
    pub ri_cpu_time_qos_user_initiated: u64,
    /// CPU time QOS user interactive
    pub ri_cpu_time_qos_user_interactive: u64,
    /// Billed system time
    pub ri_billed_system_time: u64,
    /// Serviced system time
    pub ri_serviced_system_time: u64,
}

impl PIDRUsage for RUsageInfoV3 {
    open spec fn spec_flavor() -> PidRUsageFlavor {
        PidRUsageFlavor::V3
    }

    open spec fn spec_memory_used(&self) -> u64 {
        self.ri_resident_size
    }

    fn flavor() -> (r: PidRUsageFlavor) {
        PidRUsageFlavor::V3
    }

    fn memory_used(&self) -> (r: u64) {
        self.ri_resident_size
    }

    fn set_memory_used(&mut self, used: u64) {
        self.ri_resident_size = used;
    }
}

/// C struct for Resource Usage Version 4
#[derive(Default)]
pub struct RUsageInfoV4 {
    /// Unique user id
    pub ri_uuid: [u8; 16],
    /// User time used
    pub ri_user_time: u64,
    /// System time used
    pub ri_system_time: u64,
    /// Wakeups from idle
    pub ri_pkg_idle_wkups: u64,
    /// Interrupt wakeups
    pub ri_interrupt_wkups: u64,
    /// Number of pageins
    pub ri_pageins: u64,
    /// Wired size
    pub ri_wired_size: u64,
    /// Resident size
    pub ri_resident_size: u64,
    /// Physical footprint
    pub ri_phys_footprint: u64,
    /// Process start time
    pub ri_proc_start_abstime: u64,
    /// Process exit time
    pub ri_proc_exit_abstime: u64,
    /// Child user time
    pub ri_child_user_time: u64,
    /// Child system time
    pub ri_child_system_time: u64,
    /// Child wakeups from idle
    pub ri_child_pkg_idle_wkups: u64,
    /// Child interrupt wakeups
    pub ri_child_interrupt_wkups: u64,
    /// Child pageins
    pub ri_child_pageins: u64,
    /// Child elapse time
    pub ri_child_elapsed_abstime: u64,
    /// Disk IO bytes read
    pub ri_diskio_bytesread: u64,
    /// Disk IO bytes written
    pub ri_diskio_byteswritten: u64,
    /// CPU time QOS default
    pub ri_cpu_time_qos_default: u64,
    /// CPU time QOS maintenance
    pub ri_cpu_time_qos_maintenance: u64,
    /// CPU time QOS background
    pub ri_cpu_time_qos_background: u64,
    /// CPU time QOS utility
    pub ri_cpu_time_qos_utility: u64,
    /// CPU time QOS legacy
    pub ri_cpu_time_qos_legacy: u64,
    /// CPU time QOS user initiated
    pub ri_cpu_time_qos_user_initiated: u64,
    /// CPU time QOS user interactive
    pub ri_cpu_time_qos_user_interactive: u64,
    /// Billed system time
    pub ri_billed_system_time: u64,
    /// Serviced system time
    pub ri_serviced_system_time: u64,
    /// Logical writes
    pub ri_logical_writes: u64,
    /// Lifetime maximum physical footprint
    pub ri_lifetime_max_phys_footprint: u64,
    /// instructions
    pub ri_instructions: u64,
    /// cycles
    pub ri_cycles: u64,
    /// billed energy
    pub ri_billed_energy: u64,
    /// services energy
    pub ri_serviced_energy: u64,
    /// interval maximum physical footprint
    pub ri_interval_max_phys_footprint: u64,
    /// unused
    pub ri_unused: [u64; 1],
}

impl PIDRUsage for RUsageInfoV4 {
    open spec fn spec_flavor() -> PidRUsageFlavor {
        PidRUsageFlavor::V4
    }

    open spec fn spec_memory_used(&self) -> u64 {
        self.ri_resident_size
    }

    fn flavor() -> (r: PidRUsageFlavor) {
        PidRUsageFlavor::V4
    }

    fn memory_used(&self) -> (r: u64) {
        self.ri_resident_size
    }

    fn set_memory_used(&mut self, used: u64) {
        self.ri_resident_size = used;
    }
}

/// What the `VmSize` line of a process's `status` record reports in bytes,
/// or the message of why it cannot be read.
pub open spec fn status_memory_spec(lines: Seq<String>, filename: Seq<char>) -> Result<
    u64,
    Seq<char>,
> {
    match procfile_field_spec(lines, "VmSize"@) {
        None => Err(field_not_found_text("VmSize"@, filename)),
        Some(v) => memory_string_spec(v),
    }
}

/// Builds a usage record of version `T` from the lines of a process's
/// `status` record (named `filename`): the process file system gives the
/// memory size alone, and the other fields keep their default values. What
/// is read does not depend on the version.
pub fn rusage_from_status<T: PIDRUsage>(lines: &Vec<String>, filename: &str) -> (r: Result<
    T,
    String,
>)
    ensures
        match status_memory_spec(lines@, filename@) {
            Ok(m) => r is Ok && r->Ok_0.spec_memory_used() == m,
            Err(e) => r is Err && r->Err_0@ == e,
        },
{
    let vm_size = match procfile_field_in(lines, filename, "VmSize") {
        Ok(v) => v,
        Err(e) => {
            return Err(e);
        },
    };
    let bytes = match parse_memory_string(vm_size.as_str()) {
        Ok(b) => b,
        Err(e) => {
            return Err(e);
        },
    };
    let mut usage = T::default();
    usage.set_memory_used(bytes);
    Ok(usage)
}

/// Reads the return code of the native usage call that filled `usage`: a
/// negative code is a failure, described from the error number.
pub fn pidrusage_result<T: PIDRUsage>(ret: i32, usage: T) -> (r: Result<T, String>)
    ensures
        ret < 0 ==> r is Err && exists|code: i32, d: Seq<char>|
            r->Err_0@ == #[trigger] errno_text(ret as int, code as int, d),
        ret >= 0 ==> r == Ok::<T, String>(usage),
{
    if ret < 0 {
        Err(get_errno_with_message(ret))
    } else {
        Ok(usage)
    }
}

} // verus!
