//! The writability probe.
//!
//! Permission bits are not a reliable cross-platform proxy for actual write
//! access — read-only filesystems, mandatory access control and container
//! mounts all lie. So a directory's writability is tested empirically: the
//! shell creates a uniquely-named throwaway file there and deletes it at
//! once, under the process-wide guard. The probe is best effort — access
//! can change between the probe and the real use — and that is an accepted
//! limitation, not a defect.

use vstd::prelude::*;

use crate::error::Error;

verus! {

/// The verdict of a writability probe: the directory counts as writable
/// only when the throwaway file was both created and deleted. A deletion
/// failure is reported as an unwritable directory rather than silently
/// leaving the leaked file as a success.
pub fn probe_verdict(create: &Result<(), Error>, delete: &Result<(), Error>) -> (ok: bool)
    ensures
        ok == (create is Ok && delete is Ok),
{
    create.is_ok() && delete.is_ok()
}

} // verus!
