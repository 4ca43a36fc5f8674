//! Init bootstrapping inside the jail: the mount points, the mounts with
//! their busy-target tolerance, the fixed session environment, and the
//! final shell exec.

use vstd::prelude::*;
use crate::plan::{MountKind, Step, StepSpec};
use crate::sys::{MountFailure, SysError};

verus! {

/// The init part of the launch plan: ensure the `/proc`, `/sys` and `/dev`
/// mount points exist, mount a proc filesystem, a sysfs and a bind of the
/// host `/dev` in that order, set the four fixed session variables, and
/// finally exec the shell in interactive mode.
pub open spec fn init_steps() -> Seq<StepSpec> {
    seq![
        StepSpec::EnsureDir { path: "/proc"@ },
        StepSpec::EnsureDir { path: "/sys"@ },
        StepSpec::EnsureDir { path: "/dev"@ },
        StepSpec::Mount { kind: MountKind::Proc },
        StepSpec::Mount { kind: MountKind::Sys },
        StepSpec::Mount { kind: MountKind::Dev },
        StepSpec::SetEnv { key: "PS1"@, value: "dsl \\u@\\h:\\w\\$ "@ },
        StepSpec::SetEnv { key: "TERM"@, value: "xterm-256color"@ },
        StepSpec::SetEnv { key: "HOME"@, value: "/root"@ },
        StepSpec::SetEnv {
            key: "PATH"@,
            value: "/usr/local/sbin:/usr/local/bin:/usr/sbin:/usr/bin:/sbin:/bin"@,
        },
        StepSpec::Exec { binary: "/bin/busybox"@, arg: "sh"@ },
    ]
}

/// Build the init part of the launch plan.
pub fn start() -> (r: Vec<Step>)
    ensures
        r.deep_view() == init_steps(),
{
    let mut steps: Vec<Step> = Vec::new();
    steps.push(Step::EnsureDir { path: "/proc".to_owned() });
    steps.push(Step::EnsureDir { path: "/sys".to_owned() });
    steps.push(Step::EnsureDir { path: "/dev".to_owned() });
    steps.push(Step::Mount { kind: MountKind::Proc });
    steps.push(Step::Mount { kind: MountKind::Sys });
    steps.push(Step::Mount { kind: MountKind::Dev });
    steps.push(Step::SetEnv { key: "PS1".to_owned(), value: "dsl \\u@\\h:\\w\\$ ".to_owned() });
    steps.push(Step::SetEnv { key: "TERM".to_owned(), value: "xterm-256color".to_owned() });
    steps.push(Step::SetEnv { key: "HOME".to_owned(), value: "/root".to_owned() });
    steps.push(
        Step::SetEnv {
            key: "PATH".to_owned(),
            value: "/usr/local/sbin:/usr/local/bin:/usr/sbin:/usr/bin:/sbin:/bin".to_owned(),
        },
    );
    steps.push(Step::Exec { binary: "/bin/busybox".to_owned(), arg: "sh".to_owned() });
    proof {
        assert(steps.deep_view() =~= init_steps());
    }
    steps
}

/// Judge one mount attempt: a busy target is tolerated, so that running
/// the bootstrap against an already-mounted target is not an error; any
/// other failure is fatal and carries the mount kind and errno.
pub fn mount_outcome(kind: MountKind, m: Result<(), MountFailure>) -> (r: Result<(), SysError>)
    ensures
        r is Ok <==> (m is Ok || m == Err::<(), MountFailure>(MountFailure::Busy)),
        m matches Err(MountFailure::Other(e)) ==> r == Err::<(), SysError>(
            SysError::Mount(kind, e),
        ),
{
    match m {
        Ok(()) => Ok(()),
        Err(MountFailure::Busy) => Ok(()),
        Err(MountFailure::Other(e)) => Err(SysError::Mount(kind, e)),
    }
}

/// The fixed mount arguments of one mount step, as (source, target,
/// filesystem type): a `proc` filesystem at `/proc`, a `sysfs` at `/sys`,
/// and a bind of the host `/dev` at `/dev` (a bind mount has no filesystem
/// type, so that component is empty).
pub fn mount_args(kind: MountKind) -> (r: (&'static str, &'static str, &'static str))
    ensures
        kind == MountKind::Proc ==> r.0@ == "proc"@ && r.1@ == "/proc"@ && r.2@ == "proc"@,
        kind == MountKind::Sys ==> r.0@ == "sysfs"@ && r.1@ == "/sys"@ && r.2@ == "sysfs"@,
        kind == MountKind::Dev ==> r.0@ == "/dev"@ && r.1@ == "/dev"@ && r.2@ == ""@,
{
    match kind {
        MountKind::Proc => ("proc", "/proc", "proc"),
        MountKind::Sys => ("sysfs", "/sys", "sysfs"),
        MountKind::Dev => ("/dev", "/dev", ""),
    }
}

/// Perform one mount step, with the arguments fixed by `mount_args`: proc
/// at `/proc`, sysfs at `/sys`, or a bind of the host `/dev` at `/dev`.  A
/// busy target is tolerated; any other failure is reported with this
/// step's kind.
pub fn perform_mount(kind: MountKind) -> (r: Result<(), SysError>)
    ensures
        r matches Err(e) ==> e matches SysError::Mount(k, _) && k == kind,
{
    let (source, target, fstype) = mount_args(kind);
    let m = match kind {
        MountKind::Dev => crate::sys::bind_mount(source, target),
        _ => crate::sys::mount_fs(source, target, fstype),
    };
    mount_outcome(kind, m)
}

} // verus!
