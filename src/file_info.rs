//! Information about the file descriptors that a process holds.

use vstd::prelude::*;
use crate::proc_pid::{ListPIDInfo, PidInfoFlavor};
use crate::processes::{unsupported, unsupported_text};

verus! {

/// Flavor of Pid `FileDescriptor` info for different types of File Descriptors
#[derive(Copy, Clone, Debug, PartialEq, Eq)]
pub enum PIDFDInfoFlavor {
    /// `VNodeInfo`
    VNodeInfo,
    /// `VNodePathInfo`
    VNodePathInfo,
    /// `SocketInfo`
    SocketInfo,
    /// `PSEMInfo`
    PSEMInfo,
    /// `PSHMInfo`
    PSHMInfo,
    /// `PipeInfo`
    PipeInfo,
    /// `KQueueInfo`
    KQueueInfo,
    /// `AppleTalkInfo`
    ATalkInfo,
}

impl PIDFDInfoFlavor {
    pub open spec fn spec_code(self) -> i32 {
        match self {
            PIDFDInfoFlavor::VNodeInfo => 1,
            PIDFDInfoFlavor::VNodePathInfo => 2,
            PIDFDInfoFlavor::SocketInfo => 3,
            PIDFDInfoFlavor::PSEMInfo => 4,
            PIDFDInfoFlavor::PSHMInfo => 5,
            PIDFDInfoFlavor::PipeInfo => 6,
            PIDFDInfoFlavor::KQueueInfo => 7,
            PIDFDInfoFlavor::ATalkInfo => 8,
        }
    }

    /// The flavor code that the native descriptor-info call takes.
    pub fn code(self) -> (r: i32)
        ensures
            r == self.spec_code(),
    {
        match self {
            PIDFDInfoFlavor::VNodeInfo => 1,
            PIDFDInfoFlavor::VNodePathInfo => 2,
            PIDFDInfoFlavor::SocketInfo => 3,
            PIDFDInfoFlavor::PSEMInfo => 4,
            PIDFDInfoFlavor::PSHMInfo => 5,
            PIDFDInfoFlavor::PipeInfo => 6,
            PIDFDInfoFlavor::KQueueInfo => 7,
            PIDFDInfoFlavor::ATalkInfo => 8,
        }
    }
}

/// Struct for Listing File Descriptors
pub struct ListFDs;

impl ListPIDInfo for ListFDs {
    type Item = ProcFDInfo;

    open spec fn spec_flavor() -> PidInfoFlavor {
        PidInfoFlavor::ListFDs
    }

    fn flavor() -> (r: PidInfoFlavor) {
        PidInfoFlavor::ListFDs
    }
}

/// Struct to hold info about a Processes `FileDescriptor` Info
#[derive(Copy, Clone, Debug, PartialEq, Eq, Default)]
pub struct ProcFDInfo {
    /// `FileDescriptor`
    pub proc_fd: i32,
    /// `FileDescriptor` type
    pub proc_fdtype: u32,
}

/// Enum for different `FileDescriptor` types
#[derive(Copy, Clone, Debug, PartialEq, Eq)]
pub enum ProcFDType {
    /// `AppleTalk`
    ATalk,
    /// Vnode
    VNode,
    /// Socket
    Socket,
    /// POSIX shared memory
    PSHM,
    /// POSIX semaphore
    PSEM,
    /// Kqueue
    KQueue,
    /// Pipe
    Pipe,
    /// `FSEvents`
    FSEvents,
    /// `NetPolicy`
    NetPolicy,
    /// Unknown
    Unknown,
}

/// The descriptor type of a native type code; codes past `FSEvents` are
/// `Unknown`.
pub open spec fn spec_fd_type(value: u32) -> ProcFDType {
    if value == 0 {
        ProcFDType::ATalk
    } else if value == 1 {
        ProcFDType::VNode
    } else if value == 2 {
        ProcFDType::Socket
    } else if value == 3 {
        ProcFDType::PSHM
    } else if value == 4 {
        ProcFDType::PSEM
    } else if value == 5 {
        ProcFDType::KQueue
    } else if value == 6 {
        ProcFDType::Pipe
    } else if value == 7 {
        ProcFDType::FSEvents
    } else {
        ProcFDType::Unknown
    }
}

impl From<u32> for ProcFDType {
    fn from(value: u32) -> (r: ProcFDType) {
        match value {
            0 => ProcFDType::ATalk,
            1 => ProcFDType::VNode,
            2 => ProcFDType::Socket,
            3 => ProcFDType::PSHM,
            4 => ProcFDType::PSEM,
            5 => ProcFDType::KQueue,
            6 => ProcFDType::Pipe,
            7 => ProcFDType::FSEvents,
            _ => ProcFDType::Unknown,
        }
    }
}

impl vstd::std_specs::convert::FromSpecImpl<u32> for ProcFDType {
    open spec fn obeys_from_spec() -> bool {
        true
    }

    open spec fn from_spec(v: u32) -> ProcFDType {
        spec_fd_type(v)
    }
}

/// A record type that the native descriptor-info call fills, with the flavor
/// that asks for it.
pub trait PIDFDInfo: Default {
    spec fn spec_flavor() -> PIDFDInfoFlavor;

    /// Return the Pid File Descriptor Info flavor of the implementing struct
    fn flavor() -> (r: PIDFDInfoFlavor)
        ensures
            r == Self::spec_flavor(),
    ;
}

/// Returns the information about a file descriptor of a process. The process
/// file system has no such record, so this backend reports the operation as
/// unsupported.
pub fn pidfdinfo<T: PIDFDInfo>(pid: i32, fd: i32) -> (r: Result<T, String>)
    ensures
        r is Err && r->Err_0@ == unsupported_text("pidfdinfo"@),
{
    Err(unsupported("pidfdinfo"))
}

} // verus!
