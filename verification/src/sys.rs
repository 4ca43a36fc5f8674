//! Trusted wrappers around the kernel operations that the launcher
//! performs through the `nix` crate.  Each wrapper makes exactly one
//! outside call and converts its error to a plain value; nothing is
//! promised of success or failure, since both depend on the caller's
//! privileges and the kernel's state.

use vstd::prelude::*;
use crate::plan::MountKind;

verus! {

/// Failure of one privileged kernel operation, carrying the raw OS errno.
#[derive(Debug, Clone, Copy, PartialEq, Eq, Structural)]
pub enum SysError {
    /// The namespace unshare was refused.
    Unshare(i32),
    /// The hostname could not be set.
    Hostname(i32),
    /// The change of root was refused.
    Chroot(i32),
    /// The change of working directory was refused.
    Chdir(i32),
    /// A mount failed for a reason other than a busy target.
    Mount(MountKind, i32),
}

/// What one mount attempt reported: the target was already busy, or some
/// other errno.
#[derive(Debug, Clone, Copy, PartialEq, Eq, Structural)]
pub enum MountFailure {
    /// The kernel reported `EBUSY`: the target is already mounted.
    Busy,
    /// Any other errno.
    Other(i32),
}

/// Relies on `nix::sched::unshare` with `CLONE_NEWPID | CLONE_NEWNS |
/// CLONE_NEWUTS`: asks the kernel for fresh PID, mount and UTS namespaces
/// for the calling process; an error is returned as the raw errno.
#[verifier::external_body]
pub(crate) fn unshare_pid_mount_uts() -> (r: Result<(), i32>) {
    match nix::sched::unshare(
        nix::sched::CloneFlags::CLONE_NEWPID | nix::sched::CloneFlags::CLONE_NEWNS
            | nix::sched::CloneFlags::CLONE_NEWUTS,
    ) {
        Ok(()) => Ok(()),
        Err(e) => Err(e as i32),
    }
}

/// Relies on `nix::unistd::sethostname`: sets the UTS hostname of the
/// calling process's namespace; an error is returned as the raw errno.
#[verifier::external_body]
pub(crate) fn set_hostname(name: &str) -> (r: Result<(), i32>) {
    match nix::unistd::sethostname(name) {
        Ok(()) => Ok(()),
        Err(e) => Err(e as i32),
    }
}

/// Relies on `nix::unistd::chroot`: changes the calling process's root
/// directory to `path`; an error is returned as the raw errno.
#[verifier::external_body]
pub(crate) fn chroot_into(path: &str) -> (r: Result<(), i32>) {
    match nix::unistd::chroot(path) {
        Ok(()) => Ok(()),
        Err(e) => Err(e as i32),
    }
}

/// Relies on `nix::unistd::chdir`: changes the calling process's working
/// directory to `path`; an error is returned as the raw errno.
#[verifier::external_body]
pub(crate) fn chdir_into(path: &str) -> (r: Result<(), i32>) {
    match nix::unistd::chdir(path) {
        Ok(()) => Ok(()),
        Err(e) => Err(e as i32),
    }
}

/// Relies on `nix::mount::mount` with empty flags: mounts a filesystem of
/// type `fstype` from `source` at `target`.  `EBUSY` is reported as
/// `Busy`, any other errno as `Other`.
#[verifier::external_body]
pub(crate) fn mount_fs(source: &str, target: &str, fstype: &str) -> (r: Result<(), MountFailure>) {
    match nix::mount::mount(
        Some(source),
        target,
        Some(fstype),
        nix::mount::MsFlags::empty(),
        None::<&str>,
    ) {
        Ok(()) => Ok(()),
        Err(nix::errno::Errno::EBUSY) => Err(MountFailure::Busy),
        Err(e) => Err(MountFailure::Other(e as i32)),
    }
}

/// Relies on `nix::mount::mount` with `MS_BIND`: bind-mounts `source` at
/// `target`.  `EBUSY` is reported as `Busy`, any other errno as `Other`.
#[verifier::external_body]
pub(crate) fn bind_mount(source: &str, target: &str) -> (r: Result<(), MountFailure>) {
    match nix::mount::mount(
        Some(source),
        target,
        None::<&str>,
        nix::mount::MsFlags::MS_BIND,
        None::<&str>,
    ) {
        Ok(()) => Ok(()),
        Err(nix::errno::Errno::EBUSY) => Err(MountFailure::Busy),
        Err(e) => Err(MountFailure::Other(e as i32)),
    }
}

} // verus!
