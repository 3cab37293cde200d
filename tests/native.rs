use errno::{set_errno, Errno};
use libproc::bsd_info::BSDInfo;
use libproc::file_info::{pidfdinfo, ListFDs, PIDFDInfoFlavor, ProcFDInfo, ProcFDType};
use libproc::kmesg_buffer::kmsgbuf_result;
use libproc::file_info::PIDFDInfo;
use libproc::net_info::{
    InSIAddr, KernCtlInfo, KernEventInfo, SocketFDInfo, SocketInfoKind, SocketInfoProto,
    TcpSIState, TcpSockInfo, UnSIAddr,
};
use libproc::pid_rusage::{
    pidrusage_result, rusage_from_status, PIDRUsage, PidRUsageFlavor, RUsageInfoV0,
    RUsageInfoV2, RUsageInfoV4,
};
use libproc::proc_pid::{
    is_root, libversion, listpidspath, libversion_result, listpidinfo, listpidinfo_result, name_from_status,
    pidinfo, pidinfo_result, regionfilename, ListPIDInfo, ListThreads, PIDInfo, PidInfoFlavor,
    ProcType,
};
use libproc::processes::{
    listpids_capacity, listpids_filled, listpidspath_flags, pids_by_path, pids_by_type_and_path, ProcFilter,
};
use libproc::task_info::{TaskAllInfo, TaskInfo};
use libproc::thread_info::ThreadInfo;
use libproc::work_queue_info::WorkQueueInfo;

#[test]
fn flavor_codes() {
    assert_eq!(BSDInfo::flavor().code(), 3);
    assert_eq!(TaskInfo::flavor().code(), 4);
    assert_eq!(TaskAllInfo::flavor().code(), 2);
    assert_eq!(ThreadInfo::flavor().code(), 5);
    assert_eq!(WorkQueueInfo::flavor().code(), 12);
    assert_eq!(ListThreads::flavor(), PidInfoFlavor::ListThreads);
    assert_eq!(ListFDs::flavor().code(), 1);
    assert_eq!(PidInfoFlavor::PathInfo.code(), 11);
    assert_eq!(PIDFDInfoFlavor::SocketInfo.code(), 3);
    assert_eq!(PIDFDInfoFlavor::ATalkInfo.code(), 8);
    assert_eq!(RUsageInfoV0::flavor().code(), 0);
    assert_eq!(RUsageInfoV2::flavor(), PidRUsageFlavor::V2);
    assert_eq!(RUsageInfoV4::flavor().code(), 4);
}

#[test]
fn filter_codes_and_ids() {
    assert_eq!(u32::from(ProcFilter::All), 1);
    assert_eq!(u32::from(ProcFilter::ByTTY { tty: 9 }), 3);
    assert_eq!(u32::from(ProcFilter::ByParentProcess { ppid: 9 }), 6);
    assert_eq!(ProcFilter::All.typeinfo(), 0);
    assert_eq!(ProcFilter::ByRealUID { ruid: 501 }.typeinfo(), 501);
    assert_eq!(
        ProcFilter::from(ProcType::ProcPGRPOnly),
        ProcFilter::ByProgramGroup { pgrpid: 0 }
    );
    assert_eq!(ProcFilter::from(ProcType::ProcAllPIDS), ProcFilter::All);
}

#[test]
fn type_codes() {
    assert_eq!(ProcFDType::from(2), ProcFDType::Socket);
    assert_eq!(ProcFDType::from(7), ProcFDType::FSEvents);
    assert_eq!(ProcFDType::from(42), ProcFDType::Unknown);
    assert_eq!(SocketInfoKind::from(2), SocketInfoKind::Tcp);
    assert_eq!(SocketInfoKind::from(-1), SocketInfoKind::Unknown);
    assert_eq!(TcpSIState::from(1), TcpSIState::Listen);
    assert_eq!(TcpSIState::from(11), TcpSIState::Reserved);
    assert_eq!(TcpSIState::from(12), TcpSIState::Unknown);
    let k = KernEventInfo::default();
    assert_eq!(k.kesi_class_filter, 0);
}

#[test]
fn fixed_info_is_returned_as_filled() {
    let info = WorkQueueInfo {
        pwq_nthreads: 4,
        pwq_runthreads: 1,
        pwq_blockedthreads: 2,
        reserved: [0],
    };
    let r = pidinfo_result(96, info).unwrap();
    assert_eq!(r.pwq_nthreads, 4);
    set_errno(Errno(libc::ESRCH));
    let e = pidinfo_result(0, WorkQueueInfo::default()).err().unwrap();
    assert!(e.starts_with("return code = 0, errno = 3, message = '"));
}

#[test]
fn list_info_is_cut_to_the_reported_bytes() {
    let buffer: Vec<u64> = vec![11, 12, 13, 14, 15];
    assert_eq!(listpidinfo_result::<ListThreads>(24, buffer.clone()), Ok(vec![11, 12, 13]));
    // a partial item does not count
    assert_eq!(listpidinfo_result::<ListThreads>(23, buffer.clone()), Ok(vec![11, 12]));
    // never more than the buffer holds
    assert_eq!(listpidinfo_result::<ListThreads>(4096, buffer.clone()), Ok(buffer.clone()));
    assert!(listpidinfo_result::<ListThreads>(-1, buffer).is_err());
    let fds = vec![
        ProcFDInfo { proc_fd: 0, proc_fdtype: 1 },
        ProcFDInfo { proc_fd: 3, proc_fdtype: 2 },
    ];
    assert_eq!(
        listpidinfo_result::<ListFDs>(8, fds),
        Ok(vec![ProcFDInfo { proc_fd: 0, proc_fdtype: 1 }])
    );
}

#[test]
fn native_pid_listing_answers() {
    assert_eq!(listpids_capacity(400, 0), Ok(100));
    assert_eq!(listpids_capacity(0, 0), Ok(0));
    assert_eq!(listpids_capacity(0, libc::EPERM), Err(libc::EPERM));
    assert_eq!(listpids_capacity(-1, 0), Err(0));
    assert_eq!(listpids_filled(8, 0, vec![7, 9, 0, 0]), Ok(vec![7, 9]));
    assert_eq!(listpids_filled(0, 0, vec![0, 0]), Ok(vec![]));
    assert_eq!(listpids_filled(0, libc::ESRCH, vec![0, 0]), Err(libc::ESRCH));
    assert_eq!(listpids_filled(64, 0, vec![5]), Ok(vec![5]));
}

#[test]
fn kernel_buffer_reads() {
    let buffer = b"0,1,2;hello\n\0\0\0".to_vec();
    assert_eq!(kmsgbuf_result(13, buffer), Ok("0,1,2;hello\n".to_string()));
    // only the terminator: no message is an error
    assert_eq!(
        kmsgbuf_result(1, vec![0, 0]),
        Err("Could not read kernel message buffer".to_string())
    );
    assert_eq!(
        kmsgbuf_result(0, vec![b'a'; 4]),
        Err("Could not read kernel message buffer".to_string())
    );
    assert_eq!(
        kmsgbuf_result(3, vec![0xFF, 0xFE, 0]),
        Err("Could not convert kernel message buffer from utf8".to_string())
    );
}

#[test]
fn unsupported_operations() {
    assert_eq!(
        pidinfo::<BSDInfo>(1, 0).err().unwrap(),
        "'pidinfo' is not supported on this platform"
    );
    assert!(listpidinfo::<ListFDs>(1, 8).is_err());
    assert_eq!(
        pidfdinfo::<SocketFDInfo>(1, 0).err().unwrap(),
        "'pidfdinfo' is not supported on this platform"
    );
    assert_eq!(
        regionfilename(1, 0),
        Err("'regionfilename' not implemented on linux".to_string())
    );
    assert_eq!(
        libversion(),
        Err("Linux does not use a library, so no library version number".to_string())
    );
    assert!(pids_by_path("/", true, false).is_err());
    assert_eq!(
        listpidspath(ProcType::ProcAllPIDS, "/"),
        Err("'listpidspath' is not supported on this platform".to_string())
    );
    assert!(pids_by_type_and_path(ProcFilter::All, "/", false, false).is_err());
    assert_eq!(libversion_result(0, 1, 1), Ok((1, 1)));
    assert!(libversion_result(-1, 0, 0).is_err());
}

#[test]
fn root_is_effective_uid_zero() {
    assert!(is_root(0));
    assert!(!is_root(1));
    assert!(!is_root(u32::MAX));
}

fn lines(text: &str) -> Vec<String> {
    text.lines().map(|l| l.to_string()).collect()
}

#[test]
fn usage_from_status_record() {
    let status = lines("Name:\tlibproc\nVmPeak:\t 9 kB\nVmSize:\t  220844 kB\nVmRSS:\t 4 kB\n");
    let v0: RUsageInfoV0 = rusage_from_status(&status, "/proc/9/status").unwrap();
    let v2: RUsageInfoV2 = rusage_from_status(&status, "/proc/9/status").unwrap();
    assert_eq!(v0.memory_used(), 226144256);
    assert_eq!(v2.memory_used(), v0.memory_used());
    assert_eq!(v2.ri_resident_size, v0.ri_resident_size);
    assert_eq!(v2.ri_user_time, v0.ri_user_time);
    assert_eq!(v2.ri_uuid, v0.ri_uuid);
    let missing = lines("Name:\tkthreadd\n");
    assert_eq!(
        rusage_from_status::<RUsageInfoV0>(&missing, "/proc/2/status").err(),
        Some("Could not find the field named 'VmSize' in the /proc FS file name '/proc/2/status'"
            .to_string())
    );
    assert_eq!(
        name_from_status(&status, "/proc/9/status"),
        Ok("libproc".to_string())
    );
}

#[test]
fn usage_setter_and_native_answer() {
    let mut u = RUsageInfoV4::default();
    u.set_memory_used(77);
    assert_eq!(u.ri_resident_size, 77);
    assert_eq!(pidrusage_result(0, u).unwrap().memory_used(), 77);
    assert!(pidrusage_result(-1, RUsageInfoV0::default()).is_err());
}

#[test]
fn socket_payload_follows_its_kind() {
    let fd = SocketFDInfo::default();
    assert_eq!(SocketFDInfo::flavor(), PIDFDInfoFlavor::SocketInfo);
    assert_eq!(fd.psi.soi_kind, 0);
    assert_eq!(fd.psi.soi_proto.kind(), SocketInfoKind::Generic);
    let mut tcp = TcpSockInfo::default();
    tcp.tcpsi_ini.insi_lport = 65535;
    tcp.tcpsi_state = 1;
    let proto = SocketInfoProto::Tcp(tcp);
    assert_eq!(proto.kind(), SocketInfoKind::Tcp);
    assert_eq!(proto.kind(), SocketInfoKind::from(2));
    if let SocketInfoProto::Tcp(info) = proto {
        assert_eq!(info.tcpsi_ini.insi_lport, 65535);
        assert_eq!(TcpSIState::from(info.tcpsi_state), TcpSIState::Listen);
    } else {
        panic!("expected a TCP payload");
    }
    assert!(matches!(InSIAddr::default(), InSIAddr::V4(a) if a.i46a_addr4 == 0));
    let k = KernCtlInfo::default();
    assert!(k.kcsi_name.iter().all(|c| *c == 0));
    let u = UnSIAddr::default();
    assert_eq!(u.sun_path.len(), 104);
    assert_eq!(SocketInfoProto::KernEvent(KernEventInfo::default()).kind(), SocketInfoKind::KernEvent);
}

#[test]
fn path_listing_flags() {
    assert_eq!(listpidspath_flags(false, false), 0);
    assert_eq!(listpidspath_flags(true, false), 1);
    assert_eq!(listpidspath_flags(false, true), 2);
    assert_eq!(listpidspath_flags(true, true), 3);
}
