//! Kinds and states of the sockets that a process holds.

use vstd::prelude::*;
use crate::file_info::{PIDFDInfo, PIDFDInfoFlavor};

verus! {

/// Socket Info Kind
#[derive(Copy, Clone, Debug, PartialEq, Eq)]
pub enum SocketInfoKind {
    /// Generic
    Generic,
    /// IPv4 and IPv6 Sockets
    In,
    /// TCP Sockets
    Tcp,
    /// Unix Domain Sockets
    Un,
    /// Net Drive Sockets
    Ndrv,
    /// Kernel Event Sockets
    KernEvent,
    /// Kernel Control Sockets
    KernCtl,
    /// Unknown
    Unknown,
}

/// The socket kind of a native kind code.
pub open spec fn spec_socket_kind(value: i32) -> SocketInfoKind {
    if value == 0 {
        SocketInfoKind::Generic
    } else if value == 1 {
        SocketInfoKind::In
    } else if value == 2 {
        SocketInfoKind::Tcp
    } else if value == 3 {
        SocketInfoKind::Un
    } else if value == 4 {
        SocketInfoKind::Ndrv
    } else if value == 5 {
        SocketInfoKind::KernEvent
    } else if value == 6 {
        SocketInfoKind::KernCtl
    } else {
        SocketInfoKind::Unknown
    }
}

impl From<i32> for SocketInfoKind {
    fn from(value: i32) -> (r: SocketInfoKind) {
        match value {
            0 => SocketInfoKind::Generic,
            1 => SocketInfoKind::In,
            2 => SocketInfoKind::Tcp,
            3 => SocketInfoKind::Un,
            4 => SocketInfoKind::Ndrv,
            5 => SocketInfoKind::KernEvent,
            6 => SocketInfoKind::KernCtl,
            _ => SocketInfoKind::Unknown,
        }
    }
}

impl vstd::std_specs::convert::FromSpecImpl<i32> for SocketInfoKind {
    open spec fn obeys_from_spec() -> bool {
        true
    }

    open spec fn from_spec(v: i32) -> SocketInfoKind {
        spec_socket_kind(v)
    }
}

/// TCP SI State struct
#[derive(Copy, Clone, Debug, PartialEq, Eq)]
pub enum TcpSIState {
    /// Closed
    Closed,
    /// Listening for connection
    Listen,
    /// Active, have sent syn
    SynSent,
    /// Have send and received syn
    SynReceived,
    /// Established
    Established,
    /// Rcvd fin, waiting for close
    CloseWait,
    /// Have closed, sent fin
    FinWait1,
    /// Closed xchd FIN; await FIN ACK
    Closing,
    /// Had fin and close; await FIN ACK
    LastAck,
    /// Have closed, fin is acked
    FinWait2,
    /// In 2*msl quiet wait after close
    TimeWait,
    /// Pseudo state: reserved
    Reserved,
    /// Unknown
    Unknown,
}

/// The TCP state of a native state code.
pub open spec fn spec_tcp_state(value: i32) -> TcpSIState {
    if value == 0 {
        TcpSIState::Closed
    } else if value == 1 {
        TcpSIState::Listen
    } else if value == 2 {
        TcpSIState::SynSent
    } else if value == 3 {
        TcpSIState::SynReceived
    } else if value == 4 {
        TcpSIState::Established
    } else if value == 5 {
        TcpSIState::CloseWait
    } else if value == 6 {
        TcpSIState::FinWait1
    } else if value == 7 {
        TcpSIState::Closing
    } else if value == 8 {
        TcpSIState::LastAck
    } else if value == 9 {
        TcpSIState::FinWait2
    } else if value == 10 {
        TcpSIState::TimeWait
    } else if value == 11 {
        TcpSIState::Reserved
    } else {
        TcpSIState::Unknown
    }
}

impl From<i32> for TcpSIState {
    fn from(value: i32) -> (r: TcpSIState) {
        match value {
            0 => TcpSIState::Closed,
            1 => TcpSIState::Listen,
            2 => TcpSIState::SynSent,
            3 => TcpSIState::SynReceived,
            4 => TcpSIState::Established,
            5 => TcpSIState::CloseWait,
            6 => TcpSIState::FinWait1,
            7 => TcpSIState::Closing,
            8 => TcpSIState::LastAck,
            9 => TcpSIState::FinWait2,
            10 => TcpSIState::TimeWait,
            11 => TcpSIState::Reserved,
            _ => TcpSIState::Unknown,
        }
    }
}

impl vstd::std_specs::convert::FromSpecImpl<i32> for TcpSIState {
    open spec fn obeys_from_spec() -> bool {
        true
    }

    open spec fn from_spec(v: i32) -> TcpSIState {
        spec_tcp_state(v)
    }
}

/// Kernel Event Info struct
#[derive(Copy, Clone, Debug, Default)]
pub struct KernEventInfo {
    /// Vendor code filter
    pub kesi_vendor_code_filter: u32,
    /// Class filter
    pub kesi_class_filter: u32,
    /// Subclass filter
    pub kesi_subclass_filter: u32,
}

/// Kernel Control Info struct
#[derive(Copy, Clone)]
pub struct KernCtlInfo {
    /// ID
    pub kcsi_id: u32,
    /// Reg Unit
    pub kcsi_reg_unit: u32,
    /// Flags
    pub kcsi_flags: u32,
    /// Receive Buffer Size
    pub kcsi_recvbufsize: u32,
    /// Send Buffer Size
    pub kcsi_sendbufsize: u32,
    /// Unit
    pub kcsi_unit: u32,
    /// Name
    pub kcsi_name: [i8; 96],
}

impl Default for KernCtlInfo {
    fn default() -> (r: KernCtlInfo)
        ensures
            r.kcsi_id == 0 && r.kcsi_reg_unit == 0 && r.kcsi_flags == 0 && r.kcsi_recvbufsize == 0
                && r.kcsi_sendbufsize == 0 && r.kcsi_unit == 0,
            forall|i: int| 0 <= i < 96 ==> #[trigger] r.kcsi_name@[i] == 0,
    {
        KernCtlInfo {
            kcsi_id: 0,
            kcsi_reg_unit: 0,
            kcsi_flags: 0,
            kcsi_recvbufsize: 0,
            kcsi_sendbufsize: 0,
            kcsi_unit: 0,
            kcsi_name: [0; 96],
        }
    }
}

/// Socket File Descriptor Info
#[derive(Copy, Clone, Default)]
pub struct SocketFDInfo {
    /// Proc File Info
    pub pfi: ProcFileInfo,
    /// Socket Info
    pub psi: SocketInfo,
}

impl PIDFDInfo for SocketFDInfo {
    open spec fn spec_flavor() -> PIDFDInfoFlavor {
        PIDFDInfoFlavor::SocketInfo
    }

    fn flavor() -> (r: PIDFDInfoFlavor) {
        PIDFDInfoFlavor::SocketInfo
    }
}

/// Proc File Info
#[derive(Copy, Clone, Debug, Default)]
pub struct ProcFileInfo {
    /// Open flags
    pub fi_openflags: u32,
    /// Status
    pub fi_status: u32,
    /// Offset
    pub fi_offset: i64,
    /// Type
    pub fi_type: i32,
    /// Reserved for future use
    pub rfu_1: i32,
}

/// Socket Info
#[derive(Copy, Clone, Default)]
pub struct SocketInfo {
    /// Stat
    pub soi_stat: VInfoStat,
    /// SO
    pub soi_so: u64,
    /// PCB
    pub soi_pcb: u64,
    /// Type
    pub soi_type: i32,
    /// Protocol
    pub soi_protocol: i32,
    /// Family
    pub soi_family: i32,
    /// Options
    pub soi_options: i16,
    /// Linger
    pub soi_linger: i16,
    /// State
    pub soi_state: i16,
    /// Queue Length
    pub soi_qlen: i16,
    /// Incremental Queue Length
    pub soi_incqlen: i16,
    /// Queue Limit
    pub soi_qlimit: i16,
    /// Time O
    pub soi_timeo: i16,
    /// Error
    pub soi_error: u16,
    /// OOB Mark
    pub soi_oobmark: u32,
    /// Receive
    pub soi_rcv: SockBufInfo,
    /// Send
    pub soi_snd: SockBufInfo,
    /// Kind
    pub soi_kind: i32,
    /// Reserved for future use
    pub rfu_1: u32,
    /// Proto
    pub soi_proto: SocketInfoProto,
}

impl SocketInfo {
    /// The payload is of the kind that `soi_kind` names; a kind code that is
    /// not known carries no payload.
    pub open spec fn wf(self) -> bool {
        let kind = spec_socket_kind(self.soi_kind);
        if kind == SocketInfoKind::Unknown {
            self.soi_proto is Generic
        } else {
            self.soi_proto.spec_kind() == kind
        }
    }
}

/// Struct for V Info Stat
#[derive(Copy, Clone, Debug, Default)]
pub struct VInfoStat {
    /// ID of device containing file
    pub vst_dev: u32,
    /// Mode of file
    pub vst_mode: u16,
    /// Number of hard links
    pub vst_nlink: u16,
    /// File serial number
    pub vst_ino: u64,
    /// User ID of the file
    pub vst_uid: u32,
    /// Group ID of the file
    pub vst_gid: u32,
    /// Time of last access
    pub vst_atime: i64,
    /// Time of last access in nano seconds
    pub vst_atimensec: i64,
    /// Last data modification time
    pub vst_mtime: i64,
    /// Last data modification time in nano seconds
    pub vst_mtimensec: i64,
    /// Time of last status change
    pub vst_ctime: i64,
    /// Time of last status change in nano seconds
    pub vst_ctimensec: i64,
    /// File creation time(birth)
    pub vst_birthtime: i64,
    /// File creation time(birth) in nano seconds
    pub vst_birthtimensec: i64,
    /// file size, in bytes
    pub vst_size: i64,
    /// blocks allocated for file
    pub vst_blocks: i64,
    /// optimal blocksize for I/O
    pub vst_blksize: i32,
    /// user defined flags for file
    pub vst_flags: u32,
    /// file generation number
    pub vst_gen: u32,
    /// Device ID
    pub vst_rdev: u32,
    /// Reserved
    pub vst_qspare: [i64; 2],
}

/// Socket Buffer Info
#[derive(Copy, Clone, Debug, Default)]
pub struct SockBufInfo {
    /// CC
    pub sbi_cc: u32,
    /// Hiwat
    pub sbi_hiwat: u32,
    /// MB Count
    pub sbi_mbcnt: u32,
    /// MB Max
    pub sbi_mbmax: u32,
    /// Lowat
    pub sbi_lowat: u32,
    /// Flags
    pub sbi_flags: i16,
    /// Timeo
    pub sbi_timeo: i16,
}

/// What a socket record holds for its protocol, by the kind that the record
/// names: the native record overlays these in one storage, and the kind tells
/// which one is there.
#[derive(Copy, Clone, Default)]
pub enum SocketInfoProto {
    /// No protocol payload
    #[default]
    Generic,
    /// In socket info
    In(InSockInfo),
    /// TCP Socket Info
    Tcp(TcpSockInfo),
    /// Un socket info
    Un(UnSockInfo),
    /// N Drive Info
    Ndrv(NdrvInfo),
    /// Kern Event Info
    KernEvent(KernEventInfo),
    /// Kernel Control Info
    KernCtl(KernCtlInfo),
}

impl SocketInfoProto {
    pub open spec fn spec_kind(self) -> SocketInfoKind {
        match self {
            SocketInfoProto::Generic => SocketInfoKind::Generic,
            SocketInfoProto::In(_) => SocketInfoKind::In,
            SocketInfoProto::Tcp(_) => SocketInfoKind::Tcp,
            SocketInfoProto::Un(_) => SocketInfoKind::Un,
            SocketInfoProto::Ndrv(_) => SocketInfoKind::Ndrv,
            SocketInfoProto::KernEvent(_) => SocketInfoKind::KernEvent,
            SocketInfoProto::KernCtl(_) => SocketInfoKind::KernCtl,
        }
    }

    /// The kind of the payload.
    pub fn kind(&self) -> (r: SocketInfoKind)
        ensures
            r == self.spec_kind(),
    {
        match self {
            SocketInfoProto::Generic => SocketInfoKind::Generic,
            SocketInfoProto::In(_) => SocketInfoKind::In,
            SocketInfoProto::Tcp(_) => SocketInfoKind::Tcp,
            SocketInfoProto::Un(_) => SocketInfoKind::Un,
            SocketInfoProto::Ndrv(_) => SocketInfoKind::Ndrv,
            SocketInfoProto::KernEvent(_) => SocketInfoKind::KernEvent,
            SocketInfoProto::KernCtl(_) => SocketInfoKind::KernCtl,
        }
    }
}

/// struct for holding IP4 or IP6 addresses
#[derive(Copy, Clone, Debug, Default)]
pub struct In4In6Addr {
    /// Padding
    pub i46a_pad32: [u32; 3],
    /// Address, in network byte order
    pub i46a_addr4: u32,
}

/// An address of an internet socket, by the version that the socket's
/// `insi_vflag` names.
#[derive(Copy, Clone, Debug)]
pub enum InSIAddr {
    /// v4 address
    V4(In4In6Addr),
    /// v6 address
    V6([u8; 16]),
}

impl Default for InSIAddr {
    fn default() -> (r: InSIAddr)
        ensures
            r matches InSIAddr::V4(a) && a.i46a_addr4 == 0,
    {
        InSIAddr::V4(In4In6Addr { i46a_pad32: [0; 3], i46a_addr4: 0 })
    }
}

/// `InSocketInfo` struct
#[derive(Copy, Clone, Debug, Default)]
pub struct InSockInfo {
    /// Foreign Port
    pub insi_fport: i32,
    /// Local Port
    pub insi_lport: i32,
    /// generation count of this instance
    pub insi_gencnt: u64,
    /// generic IP/datagram flags
    pub insi_flags: u32,
    /// Flow
    pub insi_flow: u32,
    /// In Socket Info IPV4 or IPV6
    pub insi_vflag: u8,
    /// time to live proto
    pub insi_ip_ttl: u8,
    /// Reserved for future use
    pub rfu_1: u32,
    /// foreign host table entry
    pub insi_faddr: InSIAddr,
    /// local host table entry
    pub insi_laddr: InSIAddr,
    /// V4 info
    pub insi_v4: InSIV4,
    /// V6 info
    pub insi_v6: InSIV6,
}

/// In Socket Info `InSIV4` struct
#[derive(Copy, Clone, Debug, Default)]
pub struct InSIV4 {
    /// Input socket V4 type of service
    pub in4_top: u8,
}

/// In Socket Info `InSIV6` struct
#[derive(Copy, Clone, Debug, Default)]
pub struct InSIV6 {
    /// `Hlim`
    pub in6_hlim: u8,
    /// Checksum
    pub in6_cksum: i32,
    /// Interface Index
    pub in6_ifindex: u16,
    /// Hops
    pub in6_hops: i16,
}

/// TCP Socket Info struct
#[derive(Copy, Clone, Debug, Default)]
pub struct TcpSockInfo {
    /// In Socket Info
    pub tcpsi_ini: InSockInfo,
    /// State
    pub tcpsi_state: i32,
    /// Timer
    pub tcpsi_timer: [i32; 4],
    /// MSS
    pub tcpsi_mss: i32,
    /// Flags
    pub tcpsi_flags: u32,
    /// Reserved for future use
    pub rfu_1: u32,
    /// TP
    pub tcpsi_tp: u64,
}

/// Unix Domain Socket Info `UnSockInfo` struct
#[derive(Copy, Clone)]
pub struct UnSockInfo {
    /// opaque handle of connected socket
    pub unsi_conn_so: u64,
    /// opaque handle of connected protocol control block
    pub unsi_conn_pcb: u64,
    /// bound address
    pub unsi_addr: UnSIAddr,
    /// address of socket connected to
    pub unsi_caddr: UnSIAddr,
}

/// Address of a Unix domain socket
#[derive(Copy, Clone)]
pub struct UnSIAddr {
    /// Length of the address
    pub sun_len: u8,
    /// Address family
    pub sun_family: u8,
    /// Path name
    pub sun_path: [i8; 104],
}

impl Default for UnSIAddr {
    fn default() -> (r: UnSIAddr)
        ensures
            r.sun_len == 0 && r.sun_family == 0,
            forall|i: int| 0 <= i < 104 ==> #[trigger] r.sun_path@[i] == 0,
    {
        UnSIAddr { sun_len: 0, sun_family: 0, sun_path: [0; 104] }
    }
}

/// `NDrvInfo` struct for `PF_NDRV Sockets`
#[derive(Copy, Clone, Debug, Default)]
pub struct NdrvInfo {
    /// Interface Family
    pub ndrvsi_if_family: u32,
    /// Interface Unit
    pub ndrvsi_if_unit: u32,
    /// Interface name
    pub ndrvsi_if_name: [i8; 16],
}

} // verus!
