use std::collections::{HashMap, HashSet};

use libproc::processes::ProcFilter;
use libproc::procfs::{
    entry_pid_of, proc_stat_field, record_needed, select_pids, ProcEntry, ProcRecord,
    ProcStatField,
};

#[test]
fn test_proc_stat_field() {
    // PPID: 17, PGRP 23, Session 11 (ignored), TTY 4201, TGPID 7 (ignored)
    let line = "42 (libproc-rs-mock-process) T 17 23 11 4201 7 ...";

    assert_eq!(proc_stat_field(line, ProcStatField::Ppid), Some(17));
    assert_eq!(proc_stat_field(line, ProcStatField::Pgrp), Some(23));
    assert_eq!(proc_stat_field(line, ProcStatField::TtyNr), Some(4201));
}

#[test]
fn test_proc_stat_field_errors() {
    let contents = "garbage in\nerrors out";
    let first_line = contents.lines().next().unwrap();

    assert_eq!(proc_stat_field(first_line, ProcStatField::Ppid), None);
    // a record that could not be read leaves the entry without a stat line
    let gone = ProcEntry {
        name: "12".to_string(),
        stat: None,
        owner_uid: None,
        stat_owner_uid: None,
    };
    assert_eq!(
        select_pids(ProcFilter::ByParentProcess { ppid: 1 }, &vec![gone]),
        Vec::<u32>::new()
    );
}

#[test]
fn stat_field_of_mock_process() {
    let line = "42 (mock process) T 17 23 11 4201 7 ...";
    assert_eq!(proc_stat_field(line, ProcStatField::Ppid), Some(17));
    assert_eq!(proc_stat_field(line, ProcStatField::Pgrp), Some(23));
    assert_eq!(proc_stat_field(line, ProcStatField::TtyNr), Some(4201));
}

#[test]
fn stat_field_after_name_with_digits_spaces_and_parens() {
    let line = "42 (x 1 2 (3) 4) S 99 100 101 34817 102 ...";
    assert_eq!(proc_stat_field(line, ProcStatField::Ppid), Some(99));
    assert_eq!(proc_stat_field(line, ProcStatField::Pgrp), Some(100));
    assert_eq!(proc_stat_field(line, ProcStatField::TtyNr), Some(34817));
}

#[test]
fn stat_field_missing_or_malformed() {
    assert_eq!(proc_stat_field("42 (short) S 1", ProcStatField::Pgrp), None);
    assert_eq!(proc_stat_field("42 (neg) S -1 2 3 4", ProcStatField::Ppid), None);
    assert_eq!(
        proc_stat_field("42 (big) S 4294967296 2 3 4", ProcStatField::Ppid),
        None
    );
    assert_eq!(proc_stat_field("", ProcStatField::TtyNr), None);
}

#[test]
fn entry_names_are_pids() {
    let e = |n: &str| ProcEntry {
        name: n.to_string(),
        stat: None,
        owner_uid: None,
        stat_owner_uid: None,
    };
    assert_eq!(entry_pid_of(&e("1234")), Some(1234));
    assert_eq!(entry_pid_of(&e("self")), None);
    assert_eq!(entry_pid_of(&e("")), None);
    assert_eq!(entry_pid_of(&e("4294967295")), Some(u32::MAX));
    assert_eq!(entry_pid_of(&e("4294967296")), None);
}

#[test]
fn filters_name_the_record_they_read() {
    assert_eq!(record_needed(ProcFilter::All), ProcRecord::NameOnly);
    assert_eq!(record_needed(ProcFilter::ByTTY { tty: 1 }), ProcRecord::Stat);
    assert_eq!(record_needed(ProcFilter::ByUID { uid: 1 }), ProcRecord::Owner);
    assert_eq!(record_needed(ProcFilter::ByRealUID { ruid: 1 }), ProcRecord::StatOwner);
    assert_eq!(record_needed(ProcFilter::ByParentProcess { ppid: 1 }), ProcRecord::Stat);
    assert_eq!(record_needed(ProcFilter::ByProgramGroup { pgrpid: 1 }), ProcRecord::Stat);
}

/// One process of a synthetic process table.
struct Proc {
    pid: u32,
    ppid: u32,
    pgrp: u32,
    tty: u32,
    uid: u32,
    ruid: u32,
}

fn table() -> Vec<Proc> {
    let p = |pid, ppid, pgrp, tty, uid, ruid| Proc { pid, ppid, pgrp, tty, uid, ruid };
    vec![
        p(1, 0, 1, 0, 0, 0),
        p(200, 1, 200, 0, 0, 0),
        p(201, 200, 200, 0, 0, 0),
        p(300, 1, 300, 34816, 1000, 1000),
        p(301, 300, 301, 34816, 1000, 1000),
        p(302, 301, 301, 34816, 0, 1000),
        p(303, 301, 301, 34816, 1000, 1000),
        p(400, 1, 400, 34817, 1001, 1001),
        p(401, 400, 400, 34817, 1001, 1001),
    ]
}

fn entries(filter: ProcFilter) -> Vec<ProcEntry> {
    let mut v = vec![ProcEntry {
        name: "self".to_string(),
        stat: Some("1 (init) S 0 1 1 0 -1".to_string()),
        owner_uid: Some(0),
        stat_owner_uid: Some(0),
    }];
    let needed = record_needed(filter);
    for p in table() {
        let stat = format!(
            "{} (worker {}) S {} {} {} {} -1 4194560",
            p.pid, p.pid, p.ppid, p.pgrp, p.pgrp, p.tty
        );
        v.push(ProcEntry {
            name: p.pid.to_string(),
            stat: if needed == ProcRecord::Stat { Some(stat) } else { None },
            owner_uid: if needed == ProcRecord::Owner { Some(p.uid) } else { None },
            stat_owner_uid: if needed == ProcRecord::StatOwner { Some(p.ruid) } else { None },
        });
    }
    v
}

fn listpids(filter: ProcFilter) -> Vec<u32> {
    select_pids(filter, &entries(filter))
}

/// The per-process view of the table, read back through the stat parser.
struct Info {
    pid: u32,
    ppid: u32,
    pgid: u32,
    tdev: u32,
    uid: u32,
    ruid: u32,
}

fn get_all_pid_info() -> Vec<Info> {
    let all = entries(ProcFilter::ByProgramGroup { pgrpid: 0 });
    let owners = entries(ProcFilter::ByUID { uid: 0 });
    let real = entries(ProcFilter::ByRealUID { ruid: 0 });
    let mut v = Vec::new();
    for i in 0..all.len() {
        if let Some(pid) = entry_pid_of(&all[i]) {
            let stat = all[i].stat.as_ref().unwrap();
            v.push(Info {
                pid,
                ppid: proc_stat_field(stat, ProcStatField::Ppid).unwrap(),
                pgid: proc_stat_field(stat, ProcStatField::Pgrp).unwrap(),
                tdev: proc_stat_field(stat, ProcStatField::TtyNr).unwrap(),
                uid: owners[i].owner_uid.unwrap(),
                ruid: real[i].stat_owner_uid.unwrap(),
            });
        }
    }
    v
}

const PROCESS_DIFF_TOLERANCE: usize = 15;

#[test]
fn test_listpids() {
    let pids = listpids(ProcFilter::All);
    assert!(!pids.is_empty());
    assert!(pids.contains(&301));
    assert_eq!(pids, vec![1, 200, 201, 300, 301, 302, 303, 400, 401]);
}

#[test]
fn macos_test_listpids_pgid() {
    let mut bsdinfo_pgrps: HashMap<u32, HashSet<u32>> = HashMap::new();
    for info in get_all_pid_info() {
        if info.pgid == info.pid {
            continue;
        }
        bsdinfo_pgrps.entry(info.pgid).or_default().insert(info.pid);
    }
    let mut not_matched = 0;
    for (pgrp, bsdinfo_pids) in bsdinfo_pgrps.iter_mut() {
        if bsdinfo_pids.len() <= 1 {
            continue;
        }
        let pids = listpids(ProcFilter::ByProgramGroup { pgrpid: *pgrp });
        for pid in pids {
            if !bsdinfo_pids.remove(&pid) {
                not_matched += 1;
                break;
            }
        }
        if !bsdinfo_pids.is_empty() {
            not_matched += 1;
        }
    }
    assert!(not_matched <= PROCESS_DIFF_TOLERANCE);
}

const NODEV: u32 = u32::MAX;

#[test]
fn macos_test_listpids_tty() {
    let mut bsdinfo_ttys: HashMap<u32, HashSet<u32>> = HashMap::new();
    for info in get_all_pid_info() {
        if info.tdev == NODEV || info.pgid == info.pid {
            continue;
        }
        bsdinfo_ttys.entry(info.tdev).or_default().insert(info.pid);
    }
    let mut not_matched = 0;
    for (tty_nr, bsdinfo_pids) in bsdinfo_ttys.iter_mut() {
        if bsdinfo_pids.len() <= 1 {
            continue;
        }
        let pids = listpids(ProcFilter::ByTTY { tty: *tty_nr });
        for pid in pids {
            if !bsdinfo_pids.remove(&pid) {
                not_matched += 1;
                break;
            }
        }
        if !bsdinfo_pids.is_empty() {
            not_matched += 1;
        }
    }
    assert!(not_matched <= PROCESS_DIFF_TOLERANCE);
}

#[test]
fn macos_test_listpids_uid() {
    let mut bsdinfo_uids: HashMap<u32, HashSet<u32>> = HashMap::new();
    for info in get_all_pid_info() {
        bsdinfo_uids.entry(info.uid).or_default().insert(info.pid);
    }
    let mut not_matched = 0;
    for (uid, bsdinfo_pids) in bsdinfo_uids.iter_mut() {
        if bsdinfo_pids.len() <= 1 {
            continue;
        }
        let pids = listpids(ProcFilter::ByUID { uid: *uid });
        for pid in pids {
            if !bsdinfo_pids.remove(&pid) {
                not_matched += 1;
                break;
            }
        }
        if !bsdinfo_pids.is_empty() {
            not_matched += 1;
        }
    }
    assert!(not_matched <= PROCESS_DIFF_TOLERANCE);
}

#[test]
fn macos_test_listpids_real_uid() {
    let mut bsdinfo_ruids: HashMap<u32, HashSet<u32>> = HashMap::new();
    for info in get_all_pid_info() {
        bsdinfo_ruids.entry(info.ruid).or_default().insert(info.pid);
    }
    let mut not_matched = 0;
    for (ruid, bsdinfo_pids) in bsdinfo_ruids.iter_mut() {
        if bsdinfo_pids.len() <= 1 {
            continue;
        }
        let pids = listpids(ProcFilter::ByRealUID { ruid: *ruid });
        for pid in pids {
            if !bsdinfo_pids.remove(&pid) {
                not_matched += 1;
                println!("pid {pid} not matched for ruid {ruid}");
                break;
            }
        }
    }
    assert!(not_matched <= PROCESS_DIFF_TOLERANCE);
}

#[test]
fn macos_test_listpids_parent_pid() {
    let mut bsdinfo_ppids: HashMap<u32, HashSet<u32>> = HashMap::new();
    for info in get_all_pid_info() {
        bsdinfo_ppids.entry(info.ppid).or_default().insert(info.pid);
    }
    let mut not_matched = 0;
    for (ppid, bsdinfo_pids) in bsdinfo_ppids.iter_mut() {
        let pids = listpids(ProcFilter::ByParentProcess { ppid: *ppid });
        for pid in pids {
            if !bsdinfo_pids.remove(&pid) {
                not_matched += 1;
                break;
            }
        }
    }
    assert!(not_matched <= PROCESS_DIFF_TOLERANCE);
}

/// On a fixed table every filter returns exactly the processes whose records
/// carry its id.
#[test]
fn filters_agree_with_per_process_records() {
    let infos = get_all_pid_info();
    for info in &infos {
        let by = |f: &dyn Fn(&Info) -> bool| -> Vec<u32> {
            infos.iter().filter(|i| f(i)).map(|i| i.pid).collect()
        };
        assert_eq!(
            listpids(ProcFilter::ByProgramGroup { pgrpid: info.pgid }),
            by(&|i| i.pgid == info.pgid)
        );
        assert_eq!(listpids(ProcFilter::ByTTY { tty: info.tdev }), by(&|i| i.tdev == info.tdev));
        assert_eq!(listpids(ProcFilter::ByUID { uid: info.uid }), by(&|i| i.uid == info.uid));
        assert_eq!(
            listpids(ProcFilter::ByRealUID { ruid: info.ruid }),
            by(&|i| i.ruid == info.ruid)
        );
        assert_eq!(
            listpids(ProcFilter::ByParentProcess { ppid: info.ppid }),
            by(&|i| i.ppid == info.ppid)
        );
    }
}

#[test]
fn test_listpids_invalid_parent_pid() {
    let pids = listpids(ProcFilter::ByParentProcess { ppid: u32::MAX });
    assert!(pids.is_empty());
}

#[test]
fn children_listed_have_that_parent() {
    let ppid = 301;
    let all = entries(ProcFilter::ByParentProcess { ppid });
    let pids = select_pids(ProcFilter::ByParentProcess { ppid }, &all);
    assert_eq!(pids, vec![302, 303]);
    for pid in pids {
        let e = all.iter().find(|e| entry_pid_of(e) == Some(pid)).unwrap();
        let stat = e.stat.as_ref().unwrap();
        assert_eq!(proc_stat_field(stat, ProcStatField::Ppid), Some(ppid));
    }
}
