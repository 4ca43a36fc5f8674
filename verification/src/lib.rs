//! A minimal single-container launcher library.
//!
//! The launcher puts one process into a fresh PID/mount/UTS namespace set,
//! applies optional cgroup resource ceilings, chroots into a distro rootfs,
//! mounts the virtual filesystems and replaces the process image with a
//! shell.  This crate holds the verified core: the limit-string arithmetic,
//! the resolution rules for the project root, and the exact, ordered plan of
//! privileged steps that a launch performs.  A thin unverified front end
//! executes the plan, performing the file writes, the fork and the exec.

pub mod cgroup;
pub mod cli;
pub mod filesystem;
pub mod init;
pub mod namespace;
pub mod num;
pub mod plan;
pub mod runtime;
pub mod sys;
