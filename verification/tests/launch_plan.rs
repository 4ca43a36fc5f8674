use dsl::cli::Limits;
use dsl::plan::{CgroupFile, MountKind, PlanError, Step};
use dsl::runtime::run;

fn alpine_limits() -> Limits {
    Limits {
        memory: Some(String::from("256M")),
        cpu: Some(1),
        pids: Some(64),
    }
}

const ROOTFS: &str = "/project/distros/alpine/rootfs";

#[test]
fn full_plan_holds_the_documented_writes() {
    let steps = run(&alpine_limits(), 4321, ROOTFS, true).unwrap();
    assert!(steps.contains(&Step::CgroupWrite {
        file: CgroupFile::MemoryMax,
        contents: String::from("268435456"),
    }));
    assert!(steps.contains(&Step::CgroupWrite {
        file: CgroupFile::CpuMax,
        contents: String::from("100000 100000"),
    }));
    assert!(steps.contains(&Step::CgroupWrite {
        file: CgroupFile::PidsMax,
        contents: String::from("64"),
    }));
    assert!(steps.contains(&Step::CgroupJoin { pid: 4321 }));
    assert!(steps.contains(&Step::EnterRootfs {
        path: String::from(ROOTFS),
    }));
    assert_eq!(
        steps.last(),
        Some(&Step::Exec {
            binary: String::from("/bin/busybox"),
            arg: String::from("sh"),
        })
    );
}

#[test]
fn join_before_chroot_before_mounts_before_exec() {
    let steps = run(&alpine_limits(), 1, ROOTFS, true).unwrap();
    let pos = |p: &dyn Fn(&Step) -> bool| steps.iter().position(|s| p(s)).unwrap();
    let join = pos(&|s: &Step| matches!(s, Step::CgroupJoin { .. }));
    let chroot = pos(&|s: &Step| matches!(s, Step::EnterRootfs { .. }));
    let first_mount = pos(&|s: &Step| matches!(s, Step::Mount { .. }));
    let last_mount = steps
        .iter()
        .rposition(|s| matches!(s, Step::Mount { .. }))
        .unwrap();
    let exec = pos(&|s: &Step| matches!(s, Step::Exec { .. }));
    assert!(join < chroot);
    assert!(chroot < first_mount);
    assert!(last_mount < exec);
    assert_eq!(exec, steps.len() - 1);
}

#[test]
fn the_three_mounts_come_in_proc_sys_dev_order() {
    let steps = run(&Limits::unlimited(), 1, ROOTFS, true).unwrap();
    let mounts: Vec<MountKind> = steps
        .iter()
        .filter_map(|s| match s {
            Step::Mount { kind } => Some(*kind),
            _ => None,
        })
        .collect();
    assert_eq!(mounts, vec![MountKind::Proc, MountKind::Sys, MountKind::Dev]);
}

#[test]
fn missing_rootfs_aborts_the_plan() {
    assert_eq!(
        run(&Limits::unlimited(), 1, ROOTFS, false),
        Err(PlanError::MissingRootfs)
    );
}

#[test]
fn bad_limits_are_reported_before_the_missing_rootfs() {
    let limits = Limits {
        memory: Some(String::from("nonsenseG")),
        cpu: None,
        pids: None,
    };
    assert_eq!(run(&limits, 1, ROOTFS, false), Err(PlanError::BadMemory));
}

#[test]
fn unlimited_launch_still_joins_the_cgroup() {
    let steps = run(&Limits::unlimited(), 9, ROOTFS, true).unwrap();
    assert!(steps.contains(&Step::CgroupJoin { pid: 9 }));
    assert!(!steps
        .iter()
        .any(|s| matches!(s, Step::CgroupWrite { .. })));
}
