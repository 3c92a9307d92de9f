//! Deterministic derivation of the paths and names a volume is addressed by.
//!
//! All three derivations are pure functions of their string arguments alone:
//! calling them twice with the same arguments yields the same result, which is
//! what lets every operation in this crate re-derive a path instead of storing
//! it.

use vstd::prelude::*;

verus! {

/// The mount point of a volume: `/mnt/<name>`.
pub open spec fn spec_mount_path(name: Seq<char>) -> Seq<char> {
    "/mnt/"@ + name
}

/// The device-registry entry for a UUID: `/dev/disk/by-uuid/<uuid>`.
pub open spec fn spec_dev_registry_path(uuid: Seq<char>) -> Seq<char> {
    "/dev/disk/by-uuid/"@ + uuid
}

/// The name of the decrypted mapping of an encrypted volume:
/// `<outer-uuid>-<name>`.
pub open spec fn spec_opened_name(uuid: Seq<char>, name: Seq<char>) -> Seq<char> {
    uuid + "-"@ + name
}

/// Computes the mount-point path for a volume name.
pub fn mount_path_for_name(name: &str) -> (r: String)
    ensures
        r@ == spec_mount_path(name@),
{
    let prefix = String::from_str("/mnt/");
    prefix.concat(name)
}

/// Computes the device-registry path under which the OS publishes the block
/// device carrying the given filesystem UUID.
pub fn dev_registry_path_for_uuid(uuid: &str) -> (r: String)
    ensures
        r@ == spec_dev_registry_path(uuid@),
{
    let prefix = String::from_str("/dev/disk/by-uuid/");
    prefix.concat(uuid)
}

/// Derives the session name for the decrypted mapping of an encrypted volume,
/// so that repeated open/close operations address the same mapping.
pub fn opened_name_for_encrypted(uuid: &str, disk_name: &str) -> (r: String)
    ensures
        r@ == spec_opened_name(uuid@, disk_name@),
{
    let mut r = String::from_str(uuid);
    r.append("-");
    r.append(disk_name);
    r
}

} // verus!
