use dsl::filesystem::{resolve_project_root, rootfs_path, setup, ProjectRoot};
use dsl::plan::{PlanError, Step};

#[test]
fn cwd_with_distros_is_chosen_as_root() {
    assert_eq!(resolve_project_root(true, None), Some(ProjectRoot::Cwd));
    assert_eq!(
        resolve_project_root(true, Some(true)),
        Some(ProjectRoot::Cwd)
    );
}

#[test]
fn parent_with_distros_is_chosen_when_cwd_lacks_it() {
    assert_eq!(
        resolve_project_root(false, Some(true)),
        Some(ProjectRoot::Parent)
    );
}

#[test]
fn resolution_fails_when_neither_level_has_distros() {
    assert_eq!(resolve_project_root(false, Some(false)), None);
    assert_eq!(resolve_project_root(false, None), None);
}

#[test]
fn rootfs_path_is_root_distros_name_rootfs() {
    assert_eq!(
        rootfs_path("/home/me/dsl", "alpine"),
        "/home/me/dsl/distros/alpine/rootfs"
    );
    assert_eq!(rootfs_path("", "x"), "/distros/x/rootfs");
}

#[test]
fn missing_rootfs_refuses_the_jail_before_any_chroot() {
    assert_eq!(
        setup("/p/distros/alpine/rootfs", false),
        Err(PlanError::MissingRootfs)
    );
}

#[test]
fn existing_rootfs_plans_exactly_one_enter_step() {
    let steps = setup("/p/distros/alpine/rootfs", true).unwrap();
    assert_eq!(
        steps,
        vec![Step::EnterRootfs {
            path: String::from("/p/distros/alpine/rootfs"),
        }]
    );
}
