//! The idempotency and ordering guarantees of the orchestration, stated and
//! proved over the spec-level transitions.

use vstd::prelude::*;

use crate::backend::spec_close_encrypted;
use crate::backend::spec_open_encrypted;
use crate::backend::spec_unmount;
use crate::errors::Error;
use crate::model::OsCall;
use crate::model::OsCore;
use crate::orchestrator::spec_do_mount;
use crate::orchestrator::spec_do_unmount;
use crate::volume::Disk;

verus! {

/// Mounting is idempotent: for every volume, once a mount has succeeded, a
/// second mount succeeds with `was_already_mounted` set, leaves the OS state
/// exactly as it was, and neither prompts to unlock anything nor creates a
/// directory — the only OS calls the second mount makes are checks, the
/// resolution of the device, and the one mount syscall the OS answers with
/// "already busy".
pub proof fn lemma_do_mount_idempotent(c: OsCore, d: Disk)
    requires
        spec_do_mount(c, d).result is Ok,
    ensures
        ({
            let c1 = spec_do_mount(c, d).core;
            let second = spec_do_mount(c1, d);
            &&& second.result == Result::<bool, Error>::Ok(true)
            &&& second.core == c1
            &&& second.calls == if d.spec_is_encrypted() {
                seq![
                    OsCall::MappingStatusCheck,
                    OsCall::DirCheck,
                    OsCall::DeviceResolve,
                    OsCall::MountSyscall,
                ]
            } else {
                seq![OsCall::DirCheck, OsCall::DeviceResolve, OsCall::MountSyscall]
            }
            &&& !second.calls.contains(OsCall::UnlockAttempt)
            &&& !second.calls.contains(OsCall::DirCreate)
        }),
{
    let c1 = spec_do_mount(c, d).core;
    let second = spec_do_mount(c1, d);
    if d.spec_is_encrypted() {
        assert(second.calls =~= seq![
            OsCall::MappingStatusCheck,
            OsCall::DirCheck,
            OsCall::DeviceResolve,
            OsCall::MountSyscall,
        ]);
    } else {
        assert(second.calls =~= seq![OsCall::DirCheck, OsCall::DeviceResolve, OsCall::MountSyscall]);
    }
    assert(forall|i: int| 0 <= i < second.calls.len() ==> second.calls[i] != OsCall::UnlockAttempt);
    assert(forall|i: int| 0 <= i < second.calls.len() ==> second.calls[i] != OsCall::DirCreate);
}

/// Unmounting a volume that was never set up — not mounted, nothing unlocked
/// — succeeds as a no-op: the OS state is untouched, whatever outcomes the
/// environment would choose for the calls that were never needed.
pub proof fn lemma_do_unmount_fresh_is_noop(c: OsCore, d: Disk)
    requires
        !c.spec_vol(d).mounted,
        !c.spec_vol(d).mapping_active,
    ensures
        spec_do_unmount(c, d).result == Result::<(), Error>::Ok(()),
        spec_do_unmount(c, d).core == c,
{
}

/// For an encrypted volume, unmounting detaches the filesystem strictly
/// before it closes the mapping: every unmount syscall in the trace precedes
/// every close attempt. And the close step runs regardless of how the
/// unmount went — the status of the mapping is always checked, and an active
/// mapping always gets its close attempt, even when the unmount failed.
pub proof fn lemma_do_unmount_orders_close_last(c: OsCore, d: Disk)
    requires
        d.spec_is_encrypted(),
    ensures
        ({
            let o = spec_do_unmount(c, d);
            &&& forall|i: int, j: int|
                0 <= i < o.calls.len() && 0 <= j < o.calls.len() && o.calls[i]
                    == OsCall::UmountSyscall && o.calls[j] == OsCall::CloseAttempt ==> i < j
            &&& o.calls.contains(OsCall::MappingStatusCheck)
            &&& c.spec_vol(d).mapping_active ==> o.calls.contains(OsCall::CloseAttempt)
        }),
{
    let o = spec_do_unmount(c, d);
    let u = spec_unmount(c, d);
    let cl = spec_close_encrypted(u.core, d);
    assert(o.calls == u.calls + cl.calls);
    assert(forall|i: int| 0 <= i < u.calls.len() ==> u.calls[i] != OsCall::CloseAttempt);
    assert(forall|j: int| 0 <= j < cl.calls.len() ==> cl.calls[j] != OsCall::UmountSyscall);
    assert forall|i: int, j: int|
        0 <= i < o.calls.len() && 0 <= j < o.calls.len() && o.calls[i] == OsCall::UmountSyscall
            && o.calls[j] == OsCall::CloseAttempt implies i < j by {
        assert(i < u.calls.len());
        assert(j >= u.calls.len());
    }
    assert(cl.calls[0] == OsCall::MappingStatusCheck);
    assert(o.calls[u.calls.len() as int] == OsCall::MappingStatusCheck);
    assert(o.calls.contains(OsCall::MappingStatusCheck));
    if c.spec_vol(d).mapping_active {
        assert(cl.calls[1] == OsCall::CloseAttempt);
        assert(o.calls[u.calls.len() as int + 1] == OsCall::CloseAttempt);
        assert(o.calls.contains(OsCall::CloseAttempt));
    }
}

/// A successful mount leaves the volume mounted and usable: its mount point
/// exists, its filesystem is attached, and — for an encrypted volume — its
/// mapping is open. Nothing else changes: every other volume's state and the
/// environment's fault choices are untouched.
pub proof fn lemma_do_mount_success_mounts(c: OsCore, d: Disk)
    requires
        spec_do_mount(c, d).result is Ok,
    ensures
        ({
            let c1 = spec_do_mount(c, d).core;
            &&& c1.spec_vol(d).mounted
            &&& c1.spec_vol(d).dir_exists
            &&& d.spec_is_encrypted() ==> c1.spec_vol(d).mapping_active
            &&& c1.spec_coherent(d)
            &&& c1.faults == c.faults
            &&& forall|d2: Disk| d2 != d ==> c1.spec_vol(d2) == c.spec_vol(d2)
        }),
{
}

/// A successful unmount leaves the volume fully torn down: the filesystem is
/// detached and — for an encrypted volume — the mapping is closed. This
/// holds of every coherent starting state; and again nothing else changes.
pub proof fn lemma_do_unmount_success_tears_down(c: OsCore, d: Disk)
    requires
        c.spec_coherent(d),
        spec_do_unmount(c, d).result is Ok,
    ensures
        ({
            let c1 = spec_do_unmount(c, d).core;
            &&& !c1.spec_vol(d).mounted
            &&& d.spec_is_encrypted() ==> !c1.spec_vol(d).mapping_active
            &&& c1.spec_coherent(d)
            &&& c1.faults == c.faults
            &&& forall|d2: Disk| d2 != d ==> c1.spec_vol(d2) == c.spec_vol(d2)
        }),
{
}

/// Opening an encrypted volume whose mapping is already active succeeds
/// without any unlock attempt — and therefore without any credential prompt:
/// the only OS call made is the status check, and the OS state is untouched.
pub proof fn lemma_open_active_skips_unlock(c: OsCore, d: Disk)
    requires
        d.spec_is_encrypted(),
        c.spec_vol(d).mapping_active,
    ensures
        ({
            let o = spec_open_encrypted(c, d);
            &&& o.result == Result::<(), Error>::Ok(())
            &&& o.core == c
            &&& o.calls == seq![OsCall::MappingStatusCheck]
            &&& !o.calls.contains(OsCall::UnlockAttempt)
        }),
{
    let o = spec_open_encrypted(c, d);
    assert(o.calls =~= seq![OsCall::MappingStatusCheck]);
    assert(forall|i: int| 0 <= i < o.calls.len() ==> o.calls[i] != OsCall::UnlockAttempt);
}

} // verus!

