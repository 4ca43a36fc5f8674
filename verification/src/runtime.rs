//! The orchestrated launch: the full child-side plan and the ordering law
//! that every successful plan obeys.
//!
//! The front end isolates the namespaces, forks once, and in the child
//! executes the steps of this plan in order; the parent blocks until the
//! child terminates.  The plan fixes the order of the privileged steps:
//! the cgroup is joined before the chroot, the chroot happens before any
//! mount, and every mount happens before the terminal exec.

use vstd::prelude::*;
use crate::cgroup::{cgroup_steps, limits_ok, mem_ok};
use crate::cli::{Limits, LimitsView};
use crate::filesystem::jail_steps;
use crate::init::init_steps;
use crate::plan::{is_chroot, is_exec, is_join, is_mount, PlanError, Step, StepSpec};

verus! {

/// The child's whole launch sequence: the cgroup steps, then the jail,
/// then init.
pub open spec fn child_plan(l: LimitsView, pid: u64, rootfs: Seq<char>) -> Seq<StepSpec> {
    cgroup_steps(l, pid) + jail_steps(rootfs) + init_steps()
}

/// Build the child's launch plan for an already-built rootfs path, with
/// `rootfs_is_dir` the caller's probe of that path.  The limits are
/// checked first, as the child applies them first: an unacceptable memory
/// string or CPU count is reported before a missing rootfs.
pub fn run(limits: &Limits, pid: u64, rootfs: &str, rootfs_is_dir: bool) -> (r: Result<
    Vec<Step>,
    PlanError,
>)
    ensures
        r is Ok <==> (limits_ok(limits@) && rootfs_is_dir),
        r matches Ok(v) ==> v.deep_view() == child_plan(limits@, pid, rootfs@),
        r == Err::<Vec<Step>, PlanError>(PlanError::BadMemory) <==> (limits@.memory matches Some(
            m,
        ) && !mem_ok(m)),
        r == Err::<Vec<Step>, PlanError>(PlanError::CpuTooLarge) <==> ((limits@.memory matches Some(
            m,
        ) ==> mem_ok(m)) && (limits@.cpu matches Some(c) && c > u64::MAX
            / crate::cgroup::CPU_PERIOD)),
        r == Err::<Vec<Step>, PlanError>(PlanError::MissingRootfs) <==> (limits_ok(limits@)
            && !rootfs_is_dir),
{
    let mut steps = match crate::cgroup::apply(limits, pid) {
        Ok(v) => v,
        Err(e) => {
            return Err(e);
        },
    };
    let mut jail = match crate::filesystem::setup(rootfs, rootfs_is_dir) {
        Ok(v) => v,
        Err(e) => {
            return Err(e);
        },
    };
    let mut init = crate::init::start();
    steps.append(&mut jail);
    steps.append(&mut init);
    proof {
        assert(steps.deep_view() =~= child_plan(limits@, pid, rootfs@));
    }
    Ok(steps)
}

/// The ordering law of a launch plan: in the child's sequence the cgroup
/// join comes before the chroot, the chroot comes before every mount,
/// every mount comes before the exec, and the exec is the terminal step —
/// the last of the plan, after which nothing is scheduled.
pub proof fn lemma_child_plan_order(l: LimitsView, pid: u64, rootfs: Seq<char>)
    ensures
        forall|i: int, j: int|
            0 <= i < child_plan(l, pid, rootfs).len() && 0 <= j < child_plan(l, pid, rootfs).len()
                && is_join(#[trigger] child_plan(l, pid, rootfs)[i]) && is_chroot(
                #[trigger] child_plan(l, pid, rootfs)[j],
            ) ==> i < j,
        forall|i: int, j: int|
            0 <= i < child_plan(l, pid, rootfs).len() && 0 <= j < child_plan(l, pid, rootfs).len()
                && is_chroot(#[trigger] child_plan(l, pid, rootfs)[i]) && is_mount(
                #[trigger] child_plan(l, pid, rootfs)[j],
            ) ==> i < j,
        forall|i: int, j: int|
            0 <= i < child_plan(l, pid, rootfs).len() && 0 <= j < child_plan(l, pid, rootfs).len()
                && is_mount(#[trigger] child_plan(l, pid, rootfs)[i]) && is_exec(
                #[trigger] child_plan(l, pid, rootfs)[j],
            ) ==> i < j,
        forall|i: int|
            0 <= i < child_plan(l, pid, rootfs).len() ==> (is_exec(
                #[trigger] child_plan(l, pid, rootfs)[i],
            ) <==> i == child_plan(l, pid, rootfs).len() - 1),
{
    let a = cgroup_steps(l, pid);
    let b = jail_steps(rootfs);
    let c = init_steps();
    let s = child_plan(l, pid, rootfs);
    assert(s == a + b + c);
    lemma_cgroup_steps_shape(l, pid);
    assert(b.len() == 1 && is_chroot(b[0]));
    assert(c.len() == 11);
    assert forall|i: int| 0 <= i < c.len() implies !is_join(c[i]) && !is_chroot(c[i]) && (is_mount(
        c[i],
    ) <==> 3 <= i <= 5) && (is_exec(c[i]) <==> i == 10) by {}
    assert forall|i: int, j: int|
        0 <= i < s.len() && 0 <= j < s.len() && is_join(s[i]) && is_chroot(s[j]) implies i < j by {
        assert(i < a.len());
        assert(j == a.len());
    }
    assert forall|i: int, j: int|
        0 <= i < s.len() && 0 <= j < s.len() && is_chroot(s[i]) && is_mount(s[j]) implies i < j by {
        assert(i == a.len());
        assert(a.len() + 1 + 3 <= j);
    }
    assert forall|i: int, j: int|
        0 <= i < s.len() && 0 <= j < s.len() && is_mount(s[i]) && is_exec(s[j]) implies i < j by {
        assert(a.len() + 1 + 3 <= i <= a.len() + 1 + 5);
        assert(j == a.len() + 1 + 10);
    }
    assert forall|i: int| 0 <= i < s.len() implies (is_exec(s[i]) <==> i == s.len() - 1) by {
        assert(s.len() == a.len() + 1 + 11);
        assert(s[s.len() - 1] == c[10]);
    }
}

/// The shape of the cgroup part of a plan: it holds no chroot, mount or
/// exec step, and its one join step is its last step.
pub proof fn lemma_cgroup_steps_shape(l: LimitsView, pid: u64)
    ensures
        ({
            let a = cgroup_steps(l, pid);
            &&& 2 <= a.len() <= 5
            &&& forall|i: int|
                0 <= i < a.len() ==> !is_chroot(#[trigger] a[i]) && !is_mount(a[i]) && !is_exec(
                    a[i],
                )
            &&& forall|i: int| 0 <= i < a.len() ==> (is_join(#[trigger] a[i]) <==> i == a.len() - 1)
        }),
{
    let a = cgroup_steps(l, pid);
    assert forall|i: int| 0 <= i < a.len() implies !is_chroot(#[trigger] a[i]) && !is_mount(a[i])
        && !is_exec(a[i]) && (is_join(a[i]) <==> i == a.len() - 1) by {
        assert(a.len() <= 5);
    }
}

} // verus!
