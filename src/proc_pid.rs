//! Information about processes by PID: the flavor codes that select a native
//! info record, and how a native call's return code is read.

use vstd::prelude::*;
use crate::helpers::{errno_text, get_errno_with_message, procfile_field_in, procfile_field_spec, field_not_found_text};
use crate::processes::{ProcFilter, unsupported, unsupported_text};
use crate::bsd_info::BSDInfo;
use crate::task_info::{TaskAllInfo, TaskInfo};
use crate::thread_info::ThreadInfo;
use crate::work_queue_info::WorkQueueInfo;

verus! {

/// The kind of processes to list, as the older listing interface names them.
#[derive(Copy, Clone, Debug, PartialEq, Eq)]
pub enum ProcType {
    /// All processes
    ProcAllPIDS,
    /// Only PGRP Processes
    ProcPGRPOnly,
    /// Only TTY Processes
    ProcTTYOnly,
    /// Only UID Processes
    ProcUIDOnly,
    /// Only RUID Processes
    ProcRUIDOnly,
    /// Only PPID Processes
    ProcPPIDOnly,
}

pub open spec fn spec_filter_of(proc_type: ProcType) -> ProcFilter {
    match proc_type {
        ProcType::ProcAllPIDS => ProcFilter::All,
        ProcType::ProcPGRPOnly => ProcFilter::ByProgramGroup { pgrpid: 0 },
        ProcType::ProcTTYOnly => ProcFilter::ByTTY { tty: 0 },
        ProcType::ProcUIDOnly => ProcFilter::ByUID { uid: 0 },
        ProcType::ProcRUIDOnly => ProcFilter::ByRealUID { ruid: 0 },
        ProcType::ProcPPIDOnly => ProcFilter::ByParentProcess { ppid: 0 },
    }
}

/// Each kind becomes the filter of that kind with id 0.
impl From<ProcType> for ProcFilter {
    fn from(proc_type: ProcType) -> (r: ProcFilter) {
        match proc_type {
            ProcType::ProcAllPIDS => ProcFilter::All,
            ProcType::ProcPGRPOnly => ProcFilter::ByProgramGroup { pgrpid: 0 },
            ProcType::ProcTTYOnly => ProcFilter::ByTTY { tty: 0 },
            ProcType::ProcUIDOnly => ProcFilter::ByUID { uid: 0 },
            ProcType::ProcRUIDOnly => ProcFilter::ByRealUID { ruid: 0 },
            ProcType::ProcPPIDOnly => ProcFilter::ByParentProcess { ppid: 0 },
        }
    }
}

impl vstd::std_specs::convert::FromSpecImpl<ProcType> for ProcFilter {
    open spec fn obeys_from_spec() -> bool {
        true
    }

    open spec fn from_spec(v: ProcType) -> ProcFilter {
        spec_filter_of(v)
    }
}

/// What kind of information about a process a native info call returns.
#[derive(Copy, Clone, Debug, PartialEq, Eq)]
pub enum PidInfoFlavor {
    /// List of File Descriptors
    ListFDs,
    /// struct `proc_taskallinfo`
    TaskAllInfo,
    /// struct `proc_bsdinfo`
    TBSDInfo,
    /// struct `proc_taskinfo`
    TaskInfo,
    /// struct `proc_threadinfo`
    ThreadInfo,
    /// list thread ids
    ListThreads,
    /// Region info
    RegionInfo,
    /// Region Path info strings
    RegionPathInfo,
    /// Strings
    VNodePathInfo,
    /// Strings
    ThreadPathInfo,
    /// Strings
    PathInfo,
    /// struct `proc_workqueueinfo`
    WorkQueueInfo,
}

impl PidInfoFlavor {
    pub open spec fn spec_code(self) -> i32 {
        match self {
            PidInfoFlavor::ListFDs => 1,
            PidInfoFlavor::TaskAllInfo => 2,
            PidInfoFlavor::TBSDInfo => 3,
            PidInfoFlavor::TaskInfo => 4,
            PidInfoFlavor::ThreadInfo => 5,
            PidInfoFlavor::ListThreads => 6,
            PidInfoFlavor::RegionInfo => 7,
            PidInfoFlavor::RegionPathInfo => 8,
            PidInfoFlavor::VNodePathInfo => 9,
            PidInfoFlavor::ThreadPathInfo => 10,
            PidInfoFlavor::PathInfo => 11,
            PidInfoFlavor::WorkQueueInfo => 12,
        }
    }

    /// The flavor code that the native info call takes.
    pub fn code(self) -> (r: i32)
        ensures
            r == self.spec_code(),
    {
        match self {
            PidInfoFlavor::ListFDs => 1,
            PidInfoFlavor::TaskAllInfo => 2,
            PidInfoFlavor::TBSDInfo => 3,
            PidInfoFlavor::TaskInfo => 4,
            PidInfoFlavor::ThreadInfo => 5,
            PidInfoFlavor::ListThreads => 6,
            PidInfoFlavor::RegionInfo => 7,
            PidInfoFlavor::RegionPathInfo => 8,
            PidInfoFlavor::VNodePathInfo => 9,
            PidInfoFlavor::ThreadPathInfo => 10,
            PidInfoFlavor::PathInfo => 11,
            PidInfoFlavor::WorkQueueInfo => 12,
        }
    }
}

/// A piece of information about a process.
pub enum PidInfo {
    /// File Descriptors used by Process
    ListFDs(Vec<i32>),
    /// Get all Task Info
    TaskAllInfo(TaskAllInfo),
    /// Get `TBSDInfo`
    TBSDInfo(BSDInfo),
    /// Single Task Info
    TaskInfo(TaskInfo),
    /// `ThreadInfo`
    ThreadInfo(ThreadInfo),
    /// A list of Thread IDs
    ListThreads(Vec<i32>),
    /// `RegionInfo`
    RegionInfo(String),
    /// `RegionPathInfo`
    RegionPathInfo(String),
    /// `VNodePathInfo`
    VNodePathInfo(String),
    /// `ThreadPathInfo`
    ThreadPathInfo(String),
    /// `PathInfo` of the executable being run as the process
    PathInfo(String),
    /// `WorkQueueInfo`
    WorkQueueInfo(WorkQueueInfo),
}

/// A record type that a native info call fills, with the flavor that asks
/// for it.
pub trait PIDInfo {
    spec fn spec_flavor() -> PidInfoFlavor;

    /// Return the `PidInfoFlavor` of the implementing struct
    fn flavor() -> (r: PidInfoFlavor)
        ensures
            r == Self::spec_flavor(),
    ;
}

/// A list of items that a native info call fills, with the flavor that asks
/// for it.
pub trait ListPIDInfo {
    /// Item
    type Item;

    spec fn spec_flavor() -> PidInfoFlavor;

    /// Return the `PidInfoFlavor` of the implementing struct
    fn flavor() -> (r: PidInfoFlavor)
        ensures
            r == Self::spec_flavor(),
    ;
}

/// Struct for List of Threads
pub struct ListThreads;

impl ListPIDInfo for ListThreads {
    type Item = u64;

    open spec fn spec_flavor() -> PidInfoFlavor {
        PidInfoFlavor::ListThreads
    }

    fn flavor() -> (r: PidInfoFlavor) {
        PidInfoFlavor::ListThreads
    }
}

/// Reads the return code of a native info call that filled `info`. Zero or
/// less is a failure, described from the error number; otherwise `info` is
/// returned as it was filled.
pub fn pidinfo_result<T>(ret: i32, info: T) -> (r: Result<T, String>)
    ensures
        ret <= 0 ==> r is Err && exists|code: i32, d: Seq<char>|
            r->Err_0@ == #[trigger] errno_text(ret as int, code as int, d),
        ret > 0 ==> r == Ok::<T, String>(info),
{
    if ret <= 0 {
        Err(get_errno_with_message(ret))
    } else {
        Ok(info)
    }
}

/// How many items a list call reports: its byte count over the item size,
/// never more than the buffer holds.
pub open spec fn listed_count(ret: int, item_size: int, capacity: int) -> int {
    if ret / item_size <= capacity {
        ret / item_size
    } else {
        capacity
    }
}

/// Reads the return code of a native list call that filled `buffer`: zero or
/// less is a failure; otherwise the items that the byte count covers are
/// kept and the rest of the buffer is dropped.
pub fn listpidinfo_result<T: ListPIDInfo>(ret: i32, buffer: Vec<T::Item>) -> (r: Result<
    Vec<T::Item>,
    String,
>)
    requires
        vstd::layout::size_of::<T::Item>() > 0,
    ensures
        ret <= 0 ==> r is Err && exists|code: i32, d: Seq<char>|
            r->Err_0@ == #[trigger] errno_text(ret as int, code as int, d),
        ret > 0 ==> r is Ok && r->Ok_0@ == buffer@.take(
            listed_count(ret as int, vstd::layout::size_of::<T::Item>() as int, buffer@.len() as int),
        ),
{
    if ret <= 0 {
        Err(get_errno_with_message(ret))
    } else {
        let item_size = core::mem::size_of::<T::Item>();
        let count = ret as usize / item_size;
        let mut items = buffer;
        items.truncate(count);
        Ok(items)
    }
}

/// A list call that succeeds reports at most as many items as its buffer
/// holds, and exactly its byte count over the item size when the buffer is
/// large enough for them.
pub proof fn lemma_list_truncation(ret: int, item_size: int, capacity: int)
    requires
        ret > 0,
        item_size > 0,
        capacity >= 0,
    ensures
        0 <= listed_count(ret, item_size, capacity) <= capacity,
        ret <= capacity * item_size ==> listed_count(ret, item_size, capacity) == ret / item_size,
{
    if ret <= capacity * item_size {
        assert(ret / item_size <= capacity) by (nonlinear_arith)
            requires
                ret <= capacity * item_size,
                item_size > 0,
                ret > 0,
        ;
    }
}

/// Get info about a process, task, thread or work queue by the record type
/// `T`. This platform has no native info call, so it reports the operation
/// as unsupported.
pub fn pidinfo<T: PIDInfo>(pid: i32, arg: u64) -> (r: Result<T, String>)
    ensures
        r is Err && r->Err_0@ == unsupported_text("pidinfo"@),
{
    Err(unsupported("pidinfo"))
}

/// Get the items of a list about a process, at most `max_len` of them.
/// Unsupported on this platform, as `pidinfo` is.
pub fn listpidinfo<T: ListPIDInfo>(pid: i32, max_len: usize) -> (r: Result<Vec<T::Item>, String>)
    ensures
        r is Err && r->Err_0@ == unsupported_text("listpidinfo"@),
{
    Err(unsupported("listpidinfo"))
}

/// Search the running processes for open file references that match a path
/// or volume, by the older kind of filter. Unsupported here, as
/// `pids_by_type_and_path` is.
pub fn listpidspath(proc_types: ProcType, path: &str) -> (r: Result<Vec<u32>, String>)
    ensures
        r is Err && r->Err_0@ == unsupported_text("listpidspath"@),
{
    Err(unsupported("listpidspath"))
}

/// Get the filename associated with a memory region: not available from the
/// process file system.
pub fn regionfilename(pid: i32, address: u64) -> (r: Result<String, String>)
    ensures
        r is Err && r->Err_0@ == "'regionfilename' not implemented on linux"@,
{
    Err(String::from_str("'regionfilename' not implemented on linux"))
}

/// Get the major and minor version numbers of the native process library,
/// which this platform does not have.
pub fn libversion() -> (r: Result<(i32, i32), String>)
    ensures
        r is Err && r->Err_0@ == "Linux does not use a library, so no library version number"@,
{
    Err(String::from_str("Linux does not use a library, so no library version number"))
}

/// Reads the result of the native library-version call: it returns 0 on
/// success, having written the two numbers.
pub fn libversion_result(ret: i32, major: i32, minor: i32) -> (r: Result<(i32, i32), String>)
    ensures
        ret == 0 ==> r == Ok::<(i32, i32), String>((major, minor)),
        ret != 0 ==> r is Err && exists|code: i32, d: Seq<char>|
            r->Err_0@ == #[trigger] errno_text(ret as int, code as int, d),
{
    if ret == 0 {
        Ok((major, minor))
    } else {
        Err(get_errno_with_message(ret))
    }
}

/// Whether a process whose effective user is `euid` runs as root.
pub fn is_root(euid: u32) -> (r: bool)
    ensures
        r == (euid == 0),
{
    euid == 0
}

/// The name of a process, from the lines of its `status` record (named
/// `filename`).
pub fn name_from_status(lines: &Vec<String>, filename: &str) -> (r: Result<String, String>)
    ensures
        match procfile_field_spec(lines@, "Name"@) {
            Some(v) => r is Ok && r->Ok_0@ == v,
            None => r is Err && r->Err_0@ == field_not_found_text("Name"@, filename@),
        },
{
    procfile_field_in(lines, filename, "Name")
}

} // verus!
