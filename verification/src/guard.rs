//! The owning mount handle and its single-shot teardown protocol.
//!
//! A [`TmpMountPoint`] exists only after the mount command has succeeded, and
//! is immutable from then on. Tearing it down consumes the guard, so at most
//! one unmount can ever be issued for it; finishing the teardown consumes the
//! in-flight handle, so the unmount's outcome is observed exactly once. An
//! unmount failure is reported as a diagnostic value, never as a panic.

use vstd::prelude::*;
use vstd::string::StringExecFns;
use crate::command::spec_umount_argv;
use crate::command::umount_argv;
use crate::session::ActionModel;
use crate::session::MountAction;

verus! {

/// What a mount guard denotes: the directory the mount is rooted at, and the
/// device it was opened for.
pub struct GuardModel {
    /// The uniquely-named temporary directory the mount is rooted at.
    pub mount_dir: Seq<char>,
    /// The device identity, kept for teardown diagnostics.
    pub dev: Seq<char>,
}

/// The owning handle to one live mount rooted at a temporary directory.
pub struct TmpMountPoint {
    mount_dir: String,
    dev: String,
}

impl View for TmpMountPoint {
    type V = GuardModel;

    closed spec fn view(&self) -> GuardModel {
        GuardModel { mount_dir: self.mount_dir@, dev: self.dev@ }
    }
}

impl TmpMountPoint {
    /// Wraps a successfully established mount. Only the mount session calls
    /// this, after the mount command has reported success.
    pub(crate) fn assemble(mount_dir: String, dev: String) -> (g: Self)
        ensures
            g@ == (GuardModel { mount_dir: mount_dir@, dev: dev@ }),
    {
        TmpMountPoint { mount_dir, dev }
    }

    /// The path of the directory the mount is rooted at; stable for the
    /// guard's whole lifetime.
    pub fn mount_point(&self) -> (r: &String)
        ensures
            r@ == self@.mount_dir,
    {
        &self.mount_dir
    }

    /// The device this guard was opened for.
    pub fn device(&self) -> (r: &String)
        ensures
            r@ == self@.dev,
    {
        &self.dev
    }

    /// Begins teardown: consumes the guard and yields the one unmount
    /// command for its mount directory, together with the handle on which
    /// the unmount's outcome must be reported.
    pub fn begin_unmount(self) -> (r: (UnmountTask, MountAction))
        ensures
            r.0@ == (TeardownModel { mount_dir: self@.mount_dir, dev: self@.dev }),
            r.1@ == (ActionModel::RunUnmount { argv: spec_umount_argv(self@.mount_dir) }),
    {
        let argv = umount_argv(self.mount_dir.as_str());
        (
            UnmountTask { mount_dir: self.mount_dir, dev: self.dev },
            MountAction::RunUnmount { argv },
        )
    }
}

/// What an in-flight teardown denotes.
pub struct TeardownModel {
    /// The directory whose unmount is in flight.
    pub mount_dir: Seq<char>,
    /// The device identity, kept for diagnostics.
    pub dev: Seq<char>,
}

/// An unmount that has been issued but whose outcome is not yet recorded.
pub struct UnmountTask {
    mount_dir: String,
    dev: String,
}

impl View for UnmountTask {
    type V = TeardownModel;

    closed spec fn view(&self) -> TeardownModel {
        TeardownModel { mount_dir: self.mount_dir@, dev: self.dev@ }
    }
}

impl UnmountTask {
    /// Records the unmount's outcome. A failed unmount yields a diagnostic
    /// value naming the device and the mount directory — teardown never
    /// escalates a failure.
    pub fn finish(self, success: bool) -> (r: Option<UnmountFailure>)
        ensures
            success <==> r is None,
            r matches Some(f) ==> f@ == (TeardownModel {
                mount_dir: self@.mount_dir,
                dev: self@.dev,
            }),
    {
        if success {
            None
        } else {
            Some(UnmountFailure { mount_dir: self.mount_dir, dev: self.dev })
        }
    }
}

/// The diagnostic record of a failed unmount: which device, which directory.
pub struct UnmountFailure {
    mount_dir: String,
    dev: String,
}

impl View for UnmountFailure {
    type V = TeardownModel;

    closed spec fn view(&self) -> TeardownModel {
        TeardownModel { mount_dir: self.mount_dir@, dev: self.dev@ }
    }
}

impl UnmountFailure {
    /// The device whose unmount failed.
    pub fn device(&self) -> (r: &String)
        ensures
            r@ == self@.dev,
    {
        &self.dev
    }

    /// The directory that is still mounted.
    pub fn mount_dir(&self) -> (r: &String)
        ensures
            r@ == self@.mount_dir,
    {
        &self.mount_dir
    }

    /// Renders the diagnostic line reported for a failed unmount.
    pub fn message(&self) -> (r: String)
        ensures
            r@ == "failed to unmount device "@ + self@.dev + " from "@ + self@.mount_dir,
    {
        let mut m = String::from_str("failed to unmount device ");
        m.append(self.dev.as_str());
        m.append(" from ");
        m.append(self.mount_dir.as_str());
        proof {
            assert(m@ =~= "failed to unmount device "@ + self@.dev + " from "@
                + self@.mount_dir);
        }
        m
    }
}

} // verus!
