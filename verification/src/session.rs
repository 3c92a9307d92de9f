//! The session controller: mount, run an interactive session at the mount
//! point, and clean up on exit.
//!
//! Cleanup is deliberate about two things. A volume that was already mounted
//! before the session began is left mounted — another consumer may still need
//! it — and that decision is reported. And a failed unmount after the session
//! is downgraded to a warning rather than a failure, because the session
//! itself already succeeded; this tolerates a mount held busy by lingering
//! background processes.

use vstd::prelude::*;

use crate::errors::Error;
use crate::model::OsCall;
use crate::model::OsCore;
use crate::model::OsState;
use crate::orchestrator::do_mount;
use crate::orchestrator::do_unmount;
use crate::orchestrator::spec_do_mount;
use crate::orchestrator::spec_do_unmount;
use crate::backend::StepOutcome;
use crate::paths::spec_mount_path;
use crate::volume::Disk;

verus! {

/// What an interactive session reports when it completes.
#[derive(Debug)]
pub struct SessionReport {
    /// The mount point the session ran in.
    pub mount_path: String,
    /// Whether the volume was already mounted before the session.
    pub was_already_mounted: bool,
    /// Whether the session was spawned with the isolation flag (it is iff the
    /// volume is encrypted).
    pub used_isolation_flag: bool,
    /// Whether cleanup skipped unmounting because the volume was already
    /// mounted before the session.
    pub skipped_unmount: bool,
    /// The unmount failure that was downgraded to a warning, if any.
    pub unmount_warning: Option<Error>,
}

/// The spec-level counterpart of a completed session's report.
pub struct SessionSpec {
    pub was_already_mounted: bool,
    pub skipped_unmount: bool,
    pub unmount_warning: Option<Error>,
}

/// The effect of an interactive session: mount, spawn the session, and on
/// exit either skip cleanup (volume was already mounted) or unmount with any
/// failure downgraded to a warning. A mount or spawn failure propagates and
/// nothing after it runs.
pub open spec fn spec_do_cd(c: OsCore, d: Disk) -> StepOutcome<SessionSpec> {
    let m = spec_do_mount(c, d);
    match m.result {
        Err(e) => StepOutcome { core: m.core, calls: m.calls, result: Err(e) },
        Ok(was_already) => {
            let spawn_calls = m.calls + seq![OsCall::ShellSpawn];
            if c.faults.spawn_fails {
                StepOutcome { core: m.core, calls: spawn_calls, result: Err(Error::SessionSpawnFailed) }
            } else if was_already {
                StepOutcome {
                    core: m.core,
                    calls: spawn_calls,
                    result: Ok(SessionSpec {
                        was_already_mounted: true,
                        skipped_unmount: true,
                        unmount_warning: None,
                    }),
                }
            } else {
                let u = spec_do_unmount(m.core, d);
                StepOutcome {
                    core: u.core,
                    calls: spawn_calls + u.calls,
                    result: Ok(SessionSpec {
                        was_already_mounted: false,
                        skipped_unmount: false,
                        unmount_warning: match u.result {
                            Err(e) => Some(e),
                            Ok(unit) => None,
                        },
                    }),
                }
            }
        },
    }
}

/// Mounts the volume, runs an interactive session rooted at its mount point,
/// and cleans up on exit.
///
/// The session gets the isolation flag exactly when the volume is encrypted.
/// Cleanup is skipped when the volume was already mounted before the session;
/// otherwise the volume is unmounted, and an unmount failure is reported only
/// as a warning in the result — the session itself still counts as a success.
pub fn do_cd(sys: &mut OsState, disk: Disk) -> (r: Result<SessionReport, Error>)
    ensures
        ({
            let o = spec_do_cd(old(sys).core, disk);
            &&& final(sys).core == o.core
            &&& final(sys).calls@ == old(sys).calls@ + o.calls
            &&& match (r, o.result) {
                (Ok(rep), Ok(s)) => {
                    &&& rep.was_already_mounted == s.was_already_mounted
                    &&& rep.skipped_unmount == s.skipped_unmount
                    &&& rep.unmount_warning == s.unmount_warning
                    &&& rep.used_isolation_flag == disk.spec_is_encrypted()
                    &&& rep.mount_path@ == spec_mount_path(disk.spec_name())
                },
                (Err(e1), Err(e2)) => e1 == e2,
                _ => false,
            }
        }),
{
    let mr = match do_mount(sys, disk) {
        Ok(mr) => mr,
        Err(e) => {
            return Err(e);
        },
    };
    sys.record(OsCall::ShellSpawn);
    if sys.core.faults.spawn_fails {
        proof {
            assert(sys.calls@ =~= old(sys).calls@ + spec_do_cd(old(sys).core, disk).calls);
        }
        return Err(Error::SessionSpawnFailed);
    }
    let used_isolation_flag = disk.is_encrypted();
    if mr.was_already_mounted {
        proof {
            assert(sys.calls@ =~= old(sys).calls@ + spec_do_cd(old(sys).core, disk).calls);
        }
        Ok(SessionReport {
            mount_path: mr.mount_path,
            was_already_mounted: true,
            used_isolation_flag,
            skipped_unmount: true,
            unmount_warning: None,
        })
    } else {
        let ur = do_unmount(sys, disk);
        proof {
            assert(sys.calls@ =~= old(sys).calls@ + spec_do_cd(old(sys).core, disk).calls);
        }
        Ok(SessionReport {
            mount_path: mr.mount_path,
            was_already_mounted: false,
            used_isolation_flag,
            skipped_unmount: false,
            unmount_warning: match ur {
                Err(e) => Some(e),
                Ok(unit) => None,
            },
        })
    }
}

} // verus!
