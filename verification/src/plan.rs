//! The ordered plan of privileged steps that one launch performs.
//!
//! The launch sequence is modelled as data: a list of `Step` values whose
//! exact contents and order the planning functions pin down in their
//! contracts.  The front end executes the list in order, so every ordering
//! fact proved about a plan holds of the run that executes it.

use vstd::prelude::*;

verus! {

/// A cgroup controller file under the control-group directory.
#[derive(Debug, Clone, Copy, PartialEq, Eq, Structural)]
pub enum CgroupFile {
    MemoryMax,
    CpuMax,
    PidsMax,
}

/// Which virtual filesystem a mount step mounts.
#[derive(Debug, Clone, Copy, PartialEq, Eq, Structural)]
pub enum MountKind {
    /// A `proc` filesystem at `/proc`.
    Proc,
    /// A `sysfs` filesystem at `/sys`.
    Sys,
    /// A bind mount of the host `/dev` at `/dev`.
    Dev,
}

/// One step of the child's launch sequence.
#[derive(Debug, Clone, PartialEq)]
pub enum Step {
    /// Ensure the control-group directory exists (best effort).
    CgroupDir,
    /// Write `contents` to one controller file (best effort).
    CgroupWrite { file: CgroupFile, contents: String },
    /// Write the child's process id to `cgroup.procs` to join the group
    /// (best effort).
    CgroupJoin { pid: u64 },
    /// Chroot into the rootfs at `path`, then chdir to `/`.
    EnterRootfs { path: String },
    /// Ensure a directory exists inside the jail (best effort).
    EnsureDir { path: String },
    /// Mount one virtual filesystem; an already-busy target is tolerated.
    Mount { kind: MountKind },
    /// Set one environment variable for the shell session, replacing any
    /// inherited value for that key.
    SetEnv { key: String, value: String },
    /// Replace the process image with the shell; on success this step never
    /// returns.
    Exec { binary: String, arg: String },
}

/// The mathematical reading of a `Step`: every string as a character
/// sequence.
pub ghost enum StepSpec {
    CgroupDir,
    CgroupWrite { file: CgroupFile, contents: Seq<char> },
    CgroupJoin { pid: u64 },
    EnterRootfs { path: Seq<char> },
    EnsureDir { path: Seq<char> },
    Mount { kind: MountKind },
    SetEnv { key: Seq<char>, value: Seq<char> },
    Exec { binary: Seq<char>, arg: Seq<char> },
}

impl View for Step {
    type V = StepSpec;

    open spec fn view(&self) -> StepSpec {
        match self {
            Step::CgroupDir => StepSpec::CgroupDir,
            Step::CgroupWrite { file, contents } => StepSpec::CgroupWrite {
                file: *file,
                contents: contents@,
            },
            Step::CgroupJoin { pid } => StepSpec::CgroupJoin { pid: *pid },
            Step::EnterRootfs { path } => StepSpec::EnterRootfs { path: path@ },
            Step::EnsureDir { path } => StepSpec::EnsureDir { path: path@ },
            Step::Mount { kind } => StepSpec::Mount { kind: *kind },
            Step::SetEnv { key, value } => StepSpec::SetEnv { key: key@, value: value@ },
            Step::Exec { binary, arg } => StepSpec::Exec { binary: binary@, arg: arg@ },
        }
    }
}

impl DeepView for Step {
    type V = StepSpec;

    open spec fn deep_view(&self) -> StepSpec {
        self@
    }
}

/// The step that joins the control group.
pub open spec fn is_join(s: StepSpec) -> bool {
    s matches StepSpec::CgroupJoin { .. }
}

/// The step that changes the process root.
pub open spec fn is_chroot(s: StepSpec) -> bool {
    s matches StepSpec::EnterRootfs { .. }
}

/// A step that mounts a virtual filesystem.
pub open spec fn is_mount(s: StepSpec) -> bool {
    s matches StepSpec::Mount { .. }
}

/// The step that replaces the process image.
pub open spec fn is_exec(s: StepSpec) -> bool {
    s matches StepSpec::Exec { .. }
}

/// Why a launch plan could not be built.
#[derive(Debug, Clone, Copy, PartialEq, Eq, Structural)]
pub enum PlanError {
    /// The memory string carries a size suffix whose numeric part is empty,
    /// not a number, or scales past `u64::MAX`.
    BadMemory,
    /// The CPU core count has no representable quota.
    CpuTooLarge,
    /// The distro's rootfs directory does not exist.
    MissingRootfs,
}

} // verus!
