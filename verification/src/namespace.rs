//! Namespace isolation: fresh PID, mount and UTS namespaces and the fixed
//! container hostname.  This must run in the original process, before the
//! fork, because namespace membership is inherited by processes created
//! afterwards.

use vstd::prelude::*;
use crate::sys::SysError;

verus! {

/// The fixed hostname set inside the new UTS namespace.
pub fn container_hostname() -> (r: &'static str)
    ensures
        r@ == "dsl"@,
{
    "dsl"
}

/// Request membership in new PID, mount and UTS namespaces as one atomic
/// kernel operation, then set the container hostname.  The hostname is
/// never set unless the unshare succeeded, and the error names the
/// operation that was refused.
pub fn setup() -> (r: Result<(), SysError>)
    ensures
        r matches Err(e) ==> (e matches SysError::Unshare(_) || e matches SysError::Hostname(_)),
{
    match crate::sys::unshare_pid_mount_uts() {
        Ok(()) => {},
        Err(e) => {
            return Err(SysError::Unshare(e));
        },
    }
    match crate::sys::set_hostname(container_hostname()) {
        Ok(()) => {},
        Err(e) => {
            return Err(SysError::Hostname(e));
        },
    }
    Ok(())
}

} // verus!
