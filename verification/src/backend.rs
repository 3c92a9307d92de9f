//! The mount backend and the encryption backend, verified over the OS model.
//!
//! Both backends are written to be safely callable after partial prior state:
//! a mount that finds the filesystem already mounted reports
//! `was_already_mounted` instead of failing, an unmount of an already-detached
//! filesystem is treated as success, and the unlock and close operations first
//! ask the encryption tool whether the mapping is active and skip their work
//! when there is nothing to do. Each operation's contract states the exact
//! resulting state, the exact result, and the exact trace of OS-level calls.

use vstd::prelude::*;

use crate::errors::Error;
use crate::model::OsCall;
use crate::model::OsCore;
use crate::model::OsState;
use crate::model::VolState;
use crate::paths::mount_path_for_name;
use crate::paths::spec_mount_path;
use crate::volume::Disk;

verus! {

/// Which device of a volume the mount backend resolves before mounting: the
/// backing device named by a plain volume's UUID, or the decrypted device
/// that an encrypted volume exposes while its mapping is open.
#[derive(Clone, Copy, Debug, PartialEq, Eq, Structural)]
pub enum DeviceRef {
    Backing,
    Unlocked,
}

/// What a mount attempt reports on success: the mount-point path, and whether
/// the filesystem was already mounted when the attempt began.
#[derive(Debug)]
pub struct MountReturn {
    pub mount_path: String,
    pub was_already_mounted: bool,
}

/// The complete effect of one backend operation on the model: the resulting
/// OS-visible state, the trace of OS-level calls the operation makes, and its
/// result.
pub struct StepOutcome<T> {
    pub core: OsCore,
    pub calls: Seq<OsCall>,
    pub result: Result<T, Error>,
}

/// Whether the device the mount backend is asked to resolve is currently
/// available.
pub open spec fn spec_device_available(v: VolState, dev: DeviceRef) -> bool {
    match dev {
        DeviceRef::Backing => v.device_present,
        DeviceRef::Unlocked => v.mapping_active,
    }
}

/// The effect of a mount attempt. On success the carried `bool` is the
/// `was_already_mounted` flag.
pub open spec fn spec_mount(c: OsCore, d: Disk, dev: DeviceRef) -> StepOutcome<bool> {
    let v = c.spec_vol(d);
    let dir_calls: Seq<OsCall> = if v.dir_exists {
        seq![OsCall::DirCheck]
    } else {
        seq![OsCall::DirCheck, OsCall::DirCreate]
    };
    if !v.dir_exists && c.faults.mkdir_fails {
        StepOutcome { core: c, calls: dir_calls, result: Err(Error::MountPathCreationFailed) }
    } else {
        let c1 = c.spec_with_vol(d, VolState { dir_exists: true, ..v });
        if !spec_device_available(v, dev) {
            StepOutcome {
                core: c1,
                calls: dir_calls + seq![OsCall::DeviceResolve],
                result: Err(Error::DeviceNotFound),
            }
        } else {
            let calls = dir_calls + seq![OsCall::DeviceResolve, OsCall::MountSyscall];
            if v.mounted {
                StepOutcome { core: c1, calls, result: Ok(true) }
            } else if c.faults.mount_errno != 0 {
                StepOutcome { core: c1, calls, result: Err(Error::MountFailed(c.faults.mount_errno)) }
            } else {
                StepOutcome {
                    core: c.spec_with_vol(d, VolState { dir_exists: true, mounted: true, ..v }),
                    calls,
                    result: Ok(false),
                }
            }
        }
    }
}

/// The effect of an unmount.
pub open spec fn spec_unmount(c: OsCore, d: Disk) -> StepOutcome<()> {
    let v = c.spec_vol(d);
    if !v.dir_exists {
        StepOutcome { core: c, calls: seq![OsCall::DirCheck], result: Ok(()) }
    } else {
        let calls = seq![OsCall::DirCheck, OsCall::UmountSyscall];
        if !v.mounted {
            StepOutcome { core: c, calls, result: Ok(()) }
        } else if c.faults.umount_errno != 0 {
            StepOutcome { core: c, calls, result: Err(Error::UnmountFailed(c.faults.umount_errno)) }
        } else {
            StepOutcome {
                core: c.spec_with_vol(d, VolState { mounted: false, ..v }),
                calls,
                result: Ok(()),
            }
        }
    }
}

/// The effect of opening an encrypted volume's mapping.
pub open spec fn spec_open_encrypted(c: OsCore, d: Disk) -> StepOutcome<()> {
    let v = c.spec_vol(d);
    if v.mapping_active {
        StepOutcome { core: c, calls: seq![OsCall::MappingStatusCheck], result: Ok(()) }
    } else if !v.device_present {
        StepOutcome {
            core: c,
            calls: seq![OsCall::MappingStatusCheck, OsCall::DeviceResolve],
            result: Err(Error::DeviceNotFound),
        }
    } else {
        let calls = seq![OsCall::MappingStatusCheck, OsCall::DeviceResolve, OsCall::UnlockAttempt];
        if c.faults.unlock_exit != 0 {
            StepOutcome { core: c, calls, result: Err(Error::UnlockFailed(c.faults.unlock_exit)) }
        } else {
            StepOutcome {
                core: c.spec_with_vol(d, VolState { mapping_active: true, ..v }),
                calls,
                result: Ok(()),
            }
        }
    }
}

/// The effect of closing an encrypted volume's mapping.
pub open spec fn spec_close_encrypted(c: OsCore, d: Disk) -> StepOutcome<()> {
    let v = c.spec_vol(d);
    if !v.mapping_active {
        StepOutcome { core: c, calls: seq![OsCall::MappingStatusCheck], result: Ok(()) }
    } else {
        let calls = seq![OsCall::MappingStatusCheck, OsCall::CloseAttempt];
        if c.faults.lock_exit != 0 {
            StepOutcome { core: c, calls, result: Err(Error::LockFailed(c.faults.lock_exit)) }
        } else {
            StepOutcome {
                core: c.spec_with_vol(d, VolState { mapping_active: false, ..v }),
                calls,
                result: Ok(()),
            }
        }
    }
}

/// Attaches a volume's filesystem at its mount point.
///
/// The mount-point directory is created first if it is absent; a filesystem
/// found already mounted is success with `was_already_mounted` set, not an
/// error. Any other mount failure is reported with its OS error code.
pub fn mount(sys: &mut OsState, disk: Disk, dev: DeviceRef) -> (r: Result<MountReturn, Error>)
    ensures
        ({
            let o = spec_mount(old(sys).core, disk, dev);
            &&& final(sys).core == o.core
            &&& final(sys).calls@ == old(sys).calls@ + o.calls
            &&& match (r, o.result) {
                (Ok(mr), Ok(b)) => mr.was_already_mounted == b && mr.mount_path@
                    == spec_mount_path(disk.spec_name()),
                (Err(e1), Err(e2)) => e1 == e2,
                _ => false,
            }
        }),
{
    let mount_path = mount_path_for_name(disk.as_repr());
    sys.record(OsCall::DirCheck);
    let v = sys.core.vol(disk);
    if !v.dir_exists {
        sys.record(OsCall::DirCreate);
        if sys.core.faults.mkdir_fails {
            proof {
                assert(sys.calls@ =~= old(sys).calls@ + spec_mount(old(sys).core, disk, dev).calls);
            }
            return Err(Error::MountPathCreationFailed);
        }
        sys.core.set_vol(disk, VolState { dir_exists: true, ..v });
    }
    sys.record(OsCall::DeviceResolve);
    let available = match dev {
        DeviceRef::Backing => v.device_present,
        DeviceRef::Unlocked => v.mapping_active,
    };
    if !available {
        proof {
            assert(sys.calls@ =~= old(sys).calls@ + spec_mount(old(sys).core, disk, dev).calls);
        }
        return Err(Error::DeviceNotFound);
    }
    sys.record(OsCall::MountSyscall);
    proof {
        assert(sys.calls@ =~= old(sys).calls@ + spec_mount(old(sys).core, disk, dev).calls);
    }
    if v.mounted {
        Ok(MountReturn { mount_path, was_already_mounted: true })
    } else if sys.core.faults.mount_errno != 0 {
        Err(Error::MountFailed(sys.core.faults.mount_errno))
    } else {
        let v1 = sys.core.vol(disk);
        sys.core.set_vol(disk, VolState { mounted: true, ..v1 });
        Ok(MountReturn { mount_path, was_already_mounted: false })
    }
}

/// Detaches a volume's filesystem from its mount point.
///
/// An absent mount-point directory means there is nothing to clean up, and an
/// already-detached filesystem is success, not an error; both make repeated
/// unmounts safe. Any other unmount failure is reported with its OS error
/// code.
pub fn unmount(sys: &mut OsState, disk: Disk) -> (r: Result<(), Error>)
    ensures
        ({
            let o = spec_unmount(old(sys).core, disk);
            &&& final(sys).core == o.core
            &&& final(sys).calls@ == old(sys).calls@ + o.calls
            &&& r == o.result
        }),
{
    sys.record(OsCall::DirCheck);
    let v = sys.core.vol(disk);
    if !v.dir_exists {
        proof {
            assert(sys.calls@ =~= old(sys).calls@ + spec_unmount(old(sys).core, disk).calls);
        }
        return Ok(());
    }
    sys.record(OsCall::UmountSyscall);
    proof {
        assert(sys.calls@ =~= old(sys).calls@ + spec_unmount(old(sys).core, disk).calls);
    }
    if !v.mounted {
        Ok(())
    } else if sys.core.faults.umount_errno != 0 {
        Err(Error::UnmountFailed(sys.core.faults.umount_errno))
    } else {
        sys.core.set_vol(disk, VolState { mounted: false, ..v });
        Ok(())
    }
}

/// Opens the decrypted mapping of an encrypted volume.
///
/// The mapping name is derived from the volume, so the status of the very
/// mapping this call would create is checked first: if it is already active,
/// the call succeeds without any unlock attempt — and therefore without any
/// credential prompt. Otherwise the backing device is resolved and the
/// external unlock operation runs; a nonzero exit status is reported as
/// [`Error::UnlockFailed`].
pub fn open_encrypted(sys: &mut OsState, disk: Disk) -> (r: Result<(), Error>)
    requires
        disk.spec_is_encrypted(),
    ensures
        ({
            let o = spec_open_encrypted(old(sys).core, disk);
            &&& final(sys).core == o.core
            &&& final(sys).calls@ == old(sys).calls@ + o.calls
            &&& r == o.result
        }),
{
    sys.record(OsCall::MappingStatusCheck);
    let v = sys.core.vol(disk);
    if v.mapping_active {
        proof {
            assert(sys.calls@ =~= old(sys).calls@ + spec_open_encrypted(old(sys).core, disk).calls);
        }
        return Ok(());
    }
    sys.record(OsCall::DeviceResolve);
    if !v.device_present {
        proof {
            assert(sys.calls@ =~= old(sys).calls@ + spec_open_encrypted(old(sys).core, disk).calls);
        }
        return Err(Error::DeviceNotFound);
    }
    sys.record(OsCall::UnlockAttempt);
    proof {
        assert(sys.calls@ =~= old(sys).calls@ + spec_open_encrypted(old(sys).core, disk).calls);
    }
    if sys.core.faults.unlock_exit != 0 {
        Err(Error::UnlockFailed(sys.core.faults.unlock_exit))
    } else {
        sys.core.set_vol(disk, VolState { mapping_active: true, ..v });
        Ok(())
    }
}

/// Closes the decrypted mapping of an encrypted volume.
///
/// Symmetrically to [`open_encrypted`], the mapping's status is checked
/// first: a mapping that is not active means there is nothing to close, and
/// the call succeeds without a close attempt, so tearing down a volume that
/// was never unlocked is safe. A nonzero exit status of the external close
/// operation is reported as [`Error::LockFailed`].
pub fn close_encrypted(sys: &mut OsState, disk: Disk) -> (r: Result<(), Error>)
    requires
        disk.spec_is_encrypted(),
    ensures
        ({
            let o = spec_close_encrypted(old(sys).core, disk);
            &&& final(sys).core == o.core
            &&& final(sys).calls@ == old(sys).calls@ + o.calls
            &&& r == o.result
        }),
{
    sys.record(OsCall::MappingStatusCheck);
    let v = sys.core.vol(disk);
    if !v.mapping_active {
        proof {
            assert(sys.calls@ =~= old(sys).calls@ + spec_close_encrypted(old(sys).core, disk).calls);
        }
        return Ok(());
    }
    sys.record(OsCall::CloseAttempt);
    proof {
        assert(sys.calls@ =~= old(sys).calls@ + spec_close_encrypted(old(sys).core, disk).calls);
    }
    if sys.core.faults.lock_exit != 0 {
        Err(Error::LockFailed(sys.core.faults.lock_exit))
    } else {
        sys.core.set_vol(disk, VolState { mapping_active: false, ..v });
        Ok(())
    }
}

} // verus!
