//! Filters over the running processes.

use vstd::prelude::*;

verus! {

/// `ProcFilter` is used to filter process ids: all of them, or those whose
/// process group, terminal, effective or real user, or parent is the given id.
#[derive(Copy, Clone, Debug, PartialEq, Eq)]
pub enum ProcFilter {
    /// All processes
    All,
    /// Filter by program group id
    ByProgramGroup {
        /// List PIDs that are members of this process group
        pgrpid: u32,
    },
    /// Filter by TTY
    ByTTY {
        /// List PIDs attached to the specific TTY
        tty: u32,
    },
    /// Filter by (effective) user ID
    ByUID {
        /// List PIDs of processes with the permissions of this specific user.
        uid: u32,
    },
    /// Filter by real user ID
    ByRealUID {
        /// List PIDs of processes started by this specific user.
        ruid: u32,
    },
    /// Filter by parent process ID
    ByParentProcess {
        /// List PIDs of processes that are children of this specific process.
        ppid: u32,
    },
}

/// Native selector code: every process.
pub const PROC_ALL_PIDS: u32 = 1;
/// Native selector code: by process group.
pub const PROC_PGRP_ONLY: u32 = 2;
/// Native selector code: by controlling terminal.
pub const PROC_TTY_ONLY: u32 = 3;
/// Native selector code: by effective user.
pub const PROC_UID_ONLY: u32 = 4;
/// Native selector code: by real user.
pub const PROC_RUID_ONLY: u32 = 5;
/// Native selector code: by parent process.
pub const PROC_PPID_ONLY: u32 = 6;

impl ProcFilter {
    /// The id that the filter compares with; `All` carries none.
    pub open spec fn spec_typeinfo(self) -> u32 {
        match self {
            ProcFilter::All => 0,
            ProcFilter::ByProgramGroup { pgrpid } => pgrpid,
            ProcFilter::ByTTY { tty } => tty,
            ProcFilter::ByUID { uid } => uid,
            ProcFilter::ByRealUID { ruid } => ruid,
            ProcFilter::ByParentProcess { ppid } => ppid,
        }
    }

    /// The native selector code of the filter's kind.
    pub open spec fn spec_code(self) -> u32 {
        match self {
            ProcFilter::All => PROC_ALL_PIDS,
            ProcFilter::ByProgramGroup { .. } => PROC_PGRP_ONLY,
            ProcFilter::ByTTY { .. } => PROC_TTY_ONLY,
            ProcFilter::ByUID { .. } => PROC_UID_ONLY,
            ProcFilter::ByRealUID { .. } => PROC_RUID_ONLY,
            ProcFilter::ByParentProcess { .. } => PROC_PPID_ONLY,
        }
    }

    /// The id passed with the selector code to the native listing call.
    pub fn typeinfo(self) -> (r: u32)
        ensures
            r == self.spec_typeinfo(),
    {
        match self {
            ProcFilter::All => 0,
            ProcFilter::ByProgramGroup { pgrpid } => pgrpid,
            ProcFilter::ByTTY { tty } => tty,
            ProcFilter::ByUID { uid } => uid,
            ProcFilter::ByRealUID { ruid } => ruid,
            ProcFilter::ByParentProcess { ppid } => ppid,
        }
    }
}

impl From<ProcFilter> for u32 {
    fn from(proc_type: ProcFilter) -> (r: u32) {
        match proc_type {
            ProcFilter::All => PROC_ALL_PIDS,
            ProcFilter::ByProgramGroup { .. } => PROC_PGRP_ONLY,
            ProcFilter::ByTTY { .. } => PROC_TTY_ONLY,
            ProcFilter::ByUID { .. } => PROC_UID_ONLY,
            ProcFilter::ByRealUID { .. } => PROC_RUID_ONLY,
            ProcFilter::ByParentProcess { .. } => PROC_PPID_ONLY,
        }
    }
}

impl vstd::std_specs::convert::FromSpecImpl<ProcFilter> for u32 {
    open spec fn obeys_from_spec() -> bool {
        true
    }

    open spec fn from_spec(v: ProcFilter) -> u32 {
        v.spec_code()
    }
}

/// The message of an operation that this platform's backend does not offer.
pub open spec fn unsupported_text(operation: Seq<char>) -> Seq<char> {
    "'"@ + operation + "' is not supported on this platform"@
}

pub fn unsupported(operation: &str) -> (r: String)
    ensures
        r@ == unsupported_text(operation@),
{
    let mut r = String::from_str("'");
    r.append(operation);
    r.append("' is not supported on this platform");
    r
}

/// Returns the PIDs of active processes that have a file open with the given
/// path, or on the given volume. The process file system offers no such
/// listing, so this backend always reports the operation as unsupported.
pub fn pids_by_path(path: &str, is_volume: bool, exclude_event_only: bool) -> (r: Result<
    Vec<u32>,
    String,
>)
    ensures
        r is Err && r->Err_0@ == unsupported_text("pids_by_path"@),
{
    Err(unsupported("pids_by_path"))
}

/// Returns the PIDs of active processes that match `filter` and have a file
/// open with the given path, or on the given volume. Unsupported here, as
/// `pids_by_path` is.
pub fn pids_by_type_and_path(
    filter: ProcFilter,
    path: &str,
    is_volume: bool,
    exclude_event_only: bool,
) -> (r: Result<Vec<u32>, String>)
    ensures
        r is Err && r->Err_0@ == unsupported_text("pids_by_type_and_path"@),
{
    Err(unsupported("pids_by_type_and_path"))
}

/// The native PID listing answers with a byte count, both when asked for the
/// size it needs and when it fills a buffer. A negative count is a failure;
/// zero is one only when the error number is set, and otherwise means no
/// process.
pub open spec fn listing_failed(ret: int, errno: int) -> bool {
    ret < 0 || (ret == 0 && errno != 0)
}

/// Reads the answer of the native size query: the number of PIDs to make
/// room for, or the error number.
pub fn listpids_capacity(ret: i32, errno: i32) -> (r: Result<usize, i32>)
    ensures
        listing_failed(ret as int, errno as int) ==> r == Err::<usize, i32>(errno),
        !listing_failed(ret as int, errno as int) ==> r == Ok::<usize, i32>((ret / 4) as usize),
{
    if ret < 0 || (ret == 0 && errno != 0) {
        Err(errno)
    } else {
        Ok((ret / 4) as usize)
    }
}

/// Reads the answer of the native fill call into `pids`: the PIDs that the
/// byte count covers, taken as the call reports them, or the error number.
pub fn listpids_filled(ret: i32, errno: i32, pids: Vec<u32>) -> (r: Result<Vec<u32>, i32>)
    ensures
        listing_failed(ret as int, errno as int) ==> r == Err::<Vec<u32>, i32>(errno),
        !listing_failed(ret as int, errno as int) ==> r is Ok && r->Ok_0@ == pids@.take(
            if ret / 4 <= pids@.len() {
                ret / 4
            } else {
                pids@.len() as int
            },
        ),
{
    if ret < 0 || (ret == 0 && errno != 0) {
        Err(errno)
    } else {
        let mut items = pids;
        items.truncate((ret / 4) as usize);
        Ok(items)
    }
}

/// Path flag of the native path listing: the path names a volume.
pub const PROC_LISTPIDSPATH_PATH_IS_VOLUME: u32 = 1;
/// Path flag of the native path listing: leave out files opened only for
/// events.
pub const PROC_LISTPIDSPATH_EXCLUDE_EVTONLY: u32 = 2;

/// The flags that the native path listing takes for the two options.
pub fn listpidspath_flags(is_volume: bool, exclude_event_only: bool) -> (r: u32)
    ensures
        r == (if is_volume {
            PROC_LISTPIDSPATH_PATH_IS_VOLUME
        } else {
            0
        }) + (if exclude_event_only {
            PROC_LISTPIDSPATH_EXCLUDE_EVTONLY
        } else {
            0
        }),
{
    let mut flags: u32 = 0;
    if is_volume {
        flags = flags + PROC_LISTPIDSPATH_PATH_IS_VOLUME;
    }
    if exclude_event_only {
        flags = flags + PROC_LISTPIDSPATH_EXCLUDE_EVTONLY;
    }
    flags
}

} // verus!
