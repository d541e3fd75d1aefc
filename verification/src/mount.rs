//! The mount decision made at kernel startup.
//!
//! Whether the kernel runs under the hypervisor is a question for an
//! external oracle; given its answer, the bridge either registers one
//! directory node at the fixed mount point or stays out of the mount table
//! entirely. Registering at an already-taken path is a fatal initialization
//! error, surfaced by the mount table itself: the kernel cannot proceed with
//! an inconsistent mount table, so the shell aborts rather than continue.

use vstd::prelude::*;
use vstd::string::StringExecFns;
use crate::node::UhyveDirectory;

verus! {

/// The fixed path the bridge's directory node is registered under.
pub open spec fn spec_mount_point() -> Seq<char> {
    "/host"@
}

/// Decides the mount at startup: under the hypervisor, one directory node
/// at the fixed mount point; elsewhere, nothing.
pub fn init(is_uhyve: bool) -> (r: Option<(String, UhyveDirectory)>)
    ensures
        is_uhyve <==> r is Some,
        r matches Some(m) ==> m.0@ == spec_mount_point(),
{
    if is_uhyve {
        Some((String::from_str("/host"), UhyveDirectory::new()))
    } else {
        None
    }
}

} // verus!
