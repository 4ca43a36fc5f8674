//! The filesystem jail: resolving the project root, building the rootfs
//! path, and the chroot/chdir pair that enters it.

use vstd::prelude::*;
use crate::plan::{PlanError, Step, StepSpec};
use crate::sys::SysError;

verus! {

/// Where the project root was found relative to the working directory.
#[derive(Debug, Clone, Copy, PartialEq, Eq, Structural)]
pub enum ProjectRoot {
    /// The working directory itself contains `distros`.
    Cwd,
    /// The parent of the working directory contains `distros`.
    Parent,
}

/// Resolve the project root from two directory probes: the working
/// directory is chosen if it contains a `distros` subdirectory; otherwise
/// the parent is chosen if it exists and contains one; otherwise
/// resolution fails.  The search never goes further up.
pub fn resolve_project_root(cwd_has_distros: bool, parent_has_distros: Option<bool>) -> (r: Option<
    ProjectRoot,
>)
    ensures
        r == (if cwd_has_distros {
            Some(ProjectRoot::Cwd)
        } else if parent_has_distros == Some(true) {
            Some(ProjectRoot::Parent)
        } else {
            None::<ProjectRoot>
        }),
{
    if cwd_has_distros {
        Some(ProjectRoot::Cwd)
    } else {
        match parent_has_distros {
            Some(true) => Some(ProjectRoot::Parent),
            _ => None,
        }
    }
}

/// The rootfs path for a distro under a project root.
pub open spec fn rootfs_path_spec(root: Seq<char>, distro: Seq<char>) -> Seq<char> {
    root + "/distros/"@ + distro + "/rootfs"@
}

/// Build `<root>/distros/<distro>/rootfs`.
pub fn rootfs_path(root: &str, distro: &str) -> (r: String)
    ensures
        r@ == rootfs_path_spec(root@, distro@),
{
    let mut r = root.to_owned();
    r.append("/distros/");
    r.append(distro);
    r.append("/rootfs");
    r
}

/// The jail's part of the launch plan: one step that chroots into the
/// rootfs and then changes the working directory to `/`.
pub open spec fn jail_steps(rootfs: Seq<char>) -> Seq<StepSpec> {
    seq![StepSpec::EnterRootfs { path: rootfs }]
}

/// Plan the jail for an already-built rootfs path.  `rootfs_is_dir` is the
/// caller's probe of that path; when it is false the jail is refused and
/// no chroot is planned.
pub fn setup(rootfs: &str, rootfs_is_dir: bool) -> (r: Result<Vec<Step>, PlanError>)
    ensures
        r is Ok <==> rootfs_is_dir,
        !rootfs_is_dir ==> r == Err::<Vec<Step>, PlanError>(PlanError::MissingRootfs),
        r matches Ok(v) ==> v.deep_view() == jail_steps(rootfs@),
{
    if !rootfs_is_dir {
        return Err(PlanError::MissingRootfs);
    }
    let mut steps: Vec<Step> = Vec::new();
    steps.push(Step::EnterRootfs { path: rootfs.to_owned() });
    proof {
        assert(steps.deep_view() =~= jail_steps(rootfs@));
    }
    Ok(steps)
}

/// The working directory entered right after the chroot: the new root
/// itself.
pub fn jail_working_dir() -> (r: &'static str)
    ensures
        r@ == "/"@,
{
    "/"
}

/// Enter the jail: chroot into `path`, and only then change the working
/// directory to the new root, `jail_working_dir`.  The chdir is never
/// attempted before the chroot has succeeded, and a failure of either
/// operation is fatal to the launch.
pub fn enter(path: &str) -> (r: Result<(), SysError>)
    ensures
        r matches Err(e) ==> (e matches SysError::Chroot(_) || e matches SysError::Chdir(_)),
{
    match crate::sys::chroot_into(path) {
        Ok(()) => {},
        Err(e) => {
            return Err(SysError::Chroot(e));
        },
    }
    match crate::sys::chdir_into(jail_working_dir()) {
        Ok(()) => {},
        Err(e) => {
            return Err(SysError::Chdir(e));
        },
    }
    Ok(())
}

} // verus!
