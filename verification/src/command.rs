//! The exact argument vectors of the three external tools.
//!
//! The only wire format of this library is the argv/exit-status contract of
//! the mount-table query, the mount tool and the unmount tool; the builders
//! here pin each argument vector down exactly.

use vstd::prelude::*;
use vstd::string::StringExecFns;

verus! {

/// The character sequences carried by a built argument vector.
pub open spec fn views_of(argv: Seq<String>) -> Seq<Seq<char>> {
    argv.map_values(|s: String| s@)
}

/// The mount path treated as eligible for the bind-mount strategy: the
/// boot partition's mount point.
pub open spec fn spec_boot_path() -> Seq<char> {
    "/boot"@
}

/// Executable twin of [`spec_boot_path`].
pub fn boot_path() -> (r: String)
    ensures
        r@ == spec_boot_path(),
{
    String::from_str("/boot")
}

/// The name prefix of every temporary mount directory.
pub open spec fn spec_temp_prefix() -> Seq<char> {
    "cryptpilot-mount-"@
}

/// Executable twin of [`spec_temp_prefix`].
pub fn temp_prefix() -> (r: String)
    ensures
        r@ == spec_temp_prefix(),
{
    String::from_str("cryptpilot-mount-")
}

/// The mount-table query: `findmnt -n -o TARGET <device>`.
pub open spec fn spec_probe_argv(dev: Seq<char>) -> Seq<Seq<char>> {
    seq!["findmnt"@, "-n"@, "-o"@, "TARGET"@, dev]
}

/// Builds the mount-table query for `dev`.
pub fn probe_argv(dev: &str) -> (r: Vec<String>)
    ensures
        views_of(r@) == spec_probe_argv(dev@),
{
    let mut v: Vec<String> = Vec::new();
    v.push(String::from_str("findmnt"));
    v.push(String::from_str("-n"));
    v.push(String::from_str("-o"));
    v.push(String::from_str("TARGET"));
    v.push(String::from_str(dev));
    proof {
        assert(views_of(v@) =~= spec_probe_argv(dev@));
    }
    v
}

/// The bind mount of the boot path: `mount --bind /boot <dir>`.
pub open spec fn spec_bind_mount_argv(dir: Seq<char>) -> Seq<Seq<char>> {
    seq!["mount"@, "--bind"@, spec_boot_path(), dir]
}

/// Builds the bind-mount command exposing the boot path at `dir`.
pub fn bind_mount_argv(dir: &str) -> (r: Vec<String>)
    ensures
        views_of(r@) == spec_bind_mount_argv(dir@),
{
    let mut v: Vec<String> = Vec::new();
    v.push(String::from_str("mount"));
    v.push(String::from_str("--bind"));
    v.push(boot_path());
    v.push(String::from_str(dir));
    proof {
        assert(views_of(v@) =~= spec_bind_mount_argv(dir@));
    }
    v
}

/// The direct mount of the device: `mount <device> <dir>`.
pub open spec fn spec_direct_mount_argv(dev: Seq<char>, dir: Seq<char>) -> Seq<Seq<char>> {
    seq!["mount"@, dev, dir]
}

/// Builds the direct-mount command mounting `dev` at `dir`.
pub fn direct_mount_argv(dev: &str, dir: &str) -> (r: Vec<String>)
    ensures
        views_of(r@) == spec_direct_mount_argv(dev@, dir@),
{
    let mut v: Vec<String> = Vec::new();
    v.push(String::from_str("mount"));
    v.push(String::from_str(dev));
    v.push(String::from_str(dir));
    proof {
        assert(views_of(v@) =~= spec_direct_mount_argv(dev@, dir@));
    }
    v
}

/// The unmount of a mount directory: `umount <dir>`.
pub open spec fn spec_umount_argv(dir: Seq<char>) -> Seq<Seq<char>> {
    seq!["umount"@, dir]
}

/// Builds the unmount command releasing the mount at `dir`.
pub fn umount_argv(dir: &str) -> (r: Vec<String>)
    ensures
        views_of(r@) == spec_umount_argv(dir@),
{
    let mut v: Vec<String> = Vec::new();
    v.push(String::from_str("umount"));
    v.push(String::from_str(dir));
    proof {
        assert(views_of(v@) =~= spec_umount_argv(dir@));
    }
    v
}

} // verus!
