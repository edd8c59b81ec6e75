//! The choice between a fresh mount of the device and a bind mount of the
//! already-mounted boot partition.
//!
//! Only a device whose current mount target is exactly the boot path is
//! re-exposed through a bind mount; a device mounted anywhere else is still
//! mounted directly, a deliberate sharp edge that surfaces as a mount
//! failure rather than a silent reuse.

use vstd::prelude::*;
use crate::command::boot_path;
use crate::command::spec_boot_path;

verus! {

/// How the device's filesystem content is exposed.
#[derive(Clone, Copy, PartialEq, Eq, Structural, Debug)]
pub enum MountStrategy {
    /// Bind-mount the existing boot-path mount target onto a fresh directory.
    Bind,
    /// Mount the raw device directly onto a fresh directory.
    Direct,
}

/// The character sequence reported by a probe, if any.
pub open spec fn target_view(target: Option<String>) -> Option<Seq<char>> {
    match target {
        Some(t) => Some(t@),
        None => None,
    }
}

/// The strategy selected for a probe result: a bind mount exactly when the
/// device is already mounted at the boot path.
pub open spec fn spec_strategy(target: Option<Seq<char>>) -> MountStrategy {
    if target == Some(spec_boot_path()) {
        MountStrategy::Bind
    } else {
        MountStrategy::Direct
    }
}

/// Selects the mount strategy for the probe result `target`.
pub fn select_strategy(target: &Option<String>) -> (r: MountStrategy)
    ensures
        r == spec_strategy(target_view(*target)),
{
    match target {
        Some(t) => {
            let boot = boot_path();
            if t.eq(&boot) {
                MountStrategy::Bind
            } else {
                MountStrategy::Direct
            }
        },
        None => MountStrategy::Direct,
    }
}

} // verus!
