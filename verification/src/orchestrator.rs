//! The volume orchestrator: mount and unmount composed per volume kind.
//!
//! A plain volume delegates directly to the mount backend. An encrypted
//! volume wraps the filesystem mount in the encryption layer: unlock before
//! mounting, and detach the filesystem before closing the mapping. There is
//! no automatic retry and no rollback — a failure is reported as the error of
//! the step that failed, and the whole operation may simply be run again
//! because every step tolerates partial prior state.

use vstd::prelude::*;

use crate::backend::close_encrypted;
use crate::backend::mount;
use crate::backend::open_encrypted;
use crate::backend::spec_close_encrypted;
use crate::backend::spec_mount;
use crate::backend::spec_open_encrypted;
use crate::backend::spec_unmount;
use crate::backend::unmount;
use crate::backend::DeviceRef;
use crate::backend::MountReturn;
use crate::backend::StepOutcome;
use crate::errors::Error;
use crate::model::OsCore;
use crate::model::OsState;
use crate::paths::spec_mount_path;
use crate::volume::Disk;

verus! {

/// The effect of mounting a volume: for a plain volume one mount attempt
/// against its backing device; for an encrypted volume an unlock first, and
/// the mount attempt — against the decrypted device — only if the unlock
/// succeeded.
pub open spec fn spec_do_mount(c: OsCore, d: Disk) -> StepOutcome<bool> {
    if !d.spec_is_encrypted() {
        spec_mount(c, d, DeviceRef::Backing)
    } else {
        let o = spec_open_encrypted(c, d);
        match o.result {
            Err(e) => StepOutcome { core: o.core, calls: o.calls, result: Err(e) },
            Ok(u) => {
                let m = spec_mount(o.core, d, DeviceRef::Unlocked);
                StepOutcome { core: m.core, calls: o.calls + m.calls, result: m.result }
            },
        }
    }
}

/// The effect of unmounting a volume: for a plain volume one unmount; for an
/// encrypted volume the unmount first and then the close of the mapping —
/// attempted regardless of how the unmount went, with the unmount's error
/// taking precedence in the reported result.
pub open spec fn spec_do_unmount(c: OsCore, d: Disk) -> StepOutcome<()> {
    if !d.spec_is_encrypted() {
        spec_unmount(c, d)
    } else {
        let u = spec_unmount(c, d);
        let cl = spec_close_encrypted(u.core, d);
        StepOutcome {
            core: cl.core,
            calls: u.calls + cl.calls,
            result: match u.result {
                Err(e) => Err(e),
                Ok(unit) => cl.result,
            },
        }
    }
}

/// Takes a volume from whatever state it is in to "mounted and usable".
///
/// For an encrypted volume the unlock happens strictly before the mount, and
/// a failed unlock means the mount is never attempted. On success the result
/// carries the mount-point path and whether the filesystem was already
/// mounted when the operation began.
pub fn do_mount(sys: &mut OsState, disk: Disk) -> (r: Result<MountReturn, Error>)
    ensures
        ({
            let o = spec_do_mount(old(sys).core, disk);
            &&& final(sys).core == o.core
            &&& final(sys).calls@ == old(sys).calls@ + o.calls
            &&& match (r, o.result) {
                (Ok(mr), Ok(b)) => mr.was_already_mounted == b && mr.mount_path@
                    == spec_mount_path(disk.spec_name()),
                (Err(e1), Err(e2)) => e1 == e2,
                _ => false,
            }
        }),
{
    if !disk.is_encrypted() {
        mount(sys, disk, DeviceRef::Backing)
    } else {
        match open_encrypted(sys, disk) {
            Err(e) => Err(e),
            Ok(unit) => {
                let r = mount(sys, disk, DeviceRef::Unlocked);
                proof {
                    assert(sys.calls@ =~= old(sys).calls@ + spec_do_mount(
                        old(sys).core,
                        disk,
                    ).calls);
                }
                r
            },
        }
    }
}

/// Takes a volume from whatever state it is in to "fully torn down".
///
/// For an encrypted volume the filesystem is detached strictly before the
/// mapping is closed — the mapping is in use until then — and the close is
/// attempted even when the unmount failed.
pub fn do_unmount(sys: &mut OsState, disk: Disk) -> (r: Result<(), Error>)
    ensures
        ({
            let o = spec_do_unmount(old(sys).core, disk);
            &&& final(sys).core == o.core
            &&& final(sys).calls@ == old(sys).calls@ + o.calls
            &&& r == o.result
        }),
{
    if !disk.is_encrypted() {
        unmount(sys, disk)
    } else {
        let ur = unmount(sys, disk);
        let cr = close_encrypted(sys, disk);
        proof {
            assert(sys.calls@ =~= old(sys).calls@ + spec_do_unmount(old(sys).core, disk).calls);
        }
        match ur {
            Err(e) => Err(e),
            Ok(unit) => cr,
        }
    }
}

} // verus!
