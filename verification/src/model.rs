//! A model of the OS-visible state that mount orchestration reads and writes.
//!
//! The orchestration in this crate is verified against this model: per volume,
//! whether its backing device is registered, whether its mount-point directory
//! exists, whether its filesystem is mounted, and whether its encryption
//! mapping is open. The model also carries fault injectors — the outcomes the
//! OS and the external encryption tool are free to choose — and a trace of the
//! OS-level calls an operation performed, so that contracts can state not only
//! where an operation ends up but also which calls it made and in which order.

use vstd::prelude::*;

use crate::volume::Disk;

verus! {

/// The OS-visible state of one volume.
#[derive(Clone, Copy, Debug, PartialEq, Eq, Structural)]
pub struct VolState {
    /// The backing device (the plain device, or the encrypted outer device)
    /// is registered under its UUID.
    pub device_present: bool,
    /// The mount-point directory `/mnt/<name>` exists.
    pub dir_exists: bool,
    /// The volume's filesystem is mounted at its mount point.
    pub mounted: bool,
    /// The decrypted mapping of the volume is open (always false for a plain
    /// volume).
    pub mapping_active: bool,
}

/// The failure outcomes the environment may choose for the fallible OS calls.
/// A zero error code or exit status means the call succeeds.
#[derive(Clone, Copy, Debug, PartialEq, Eq, Structural)]
pub struct Faults {
    /// Creating an absent mount-point directory fails.
    pub mkdir_fails: bool,
    /// The OS error code a fresh mount attempt fails with.
    pub mount_errno: i32,
    /// The OS error code unmounting a mounted filesystem fails with.
    pub umount_errno: i32,
    /// The exit status of an unlock attempt on an inactive mapping.
    pub unlock_exit: i32,
    /// The exit status of a close attempt on an active mapping.
    pub lock_exit: i32,
    /// Spawning the interactive session process fails.
    pub spawn_fails: bool,
}

/// One OS-level call, as recorded in the trace of an operation.
#[derive(Clone, Copy, Debug, PartialEq, Eq, Structural)]
pub enum OsCall {
    /// Asked the encryption tool whether the mapping is active.
    MappingStatusCheck,
    /// Ran the encryption tool to unlock the device (this is the call that
    /// prompts for a credential).
    UnlockAttempt,
    /// Ran the encryption tool to close the mapping.
    CloseAttempt,
    /// Resolved a UUID through the device registry.
    DeviceResolve,
    /// Checked whether the mount-point directory exists.
    DirCheck,
    /// Created the mount-point directory.
    DirCreate,
    /// Issued the mount syscall.
    MountSyscall,
    /// Issued the umount syscall.
    UmountSyscall,
    /// Spawned the interactive session process.
    ShellSpawn,
}

/// The OS-visible state of all volumes, plus the environment's chosen fault
/// outcomes.
#[derive(Clone, Copy, Debug, PartialEq, Eq, Structural)]
pub struct OsCore {
    pub zdani: VolState,
    pub sivydatni: VolState,
    pub muhackiku: VolState,
    pub barda: VolState,
    pub sivbra: VolState,
    pub faults: Faults,
}

/// The model an operation runs against: the OS-visible state together with
/// the trace of OS-level calls made so far.
#[derive(Clone, Debug)]
pub struct OsState {
    pub core: OsCore,
    pub calls: Vec<OsCall>,
}

impl VolState {
    /// A volume that is fully at rest: device registered, nothing mounted,
    /// nothing unlocked, mount point not yet created.
    pub fn at_rest() -> (v: VolState)
        ensures
            v == (VolState {
                device_present: true,
                dir_exists: false,
                mounted: false,
                mapping_active: false,
            }),
    {
        VolState { device_present: true, dir_exists: false, mounted: false, mapping_active: false }
    }
}

impl Faults {
    /// An environment in which every OS call succeeds.
    pub fn none() -> (f: Faults)
        ensures
            f == (Faults {
                mkdir_fails: false,
                mount_errno: 0,
                umount_errno: 0,
                unlock_exit: 0,
                lock_exit: 0,
                spawn_fails: false,
            }),
    {
        Faults {
            mkdir_fails: false,
            mount_errno: 0,
            umount_errno: 0,
            unlock_exit: 0,
            lock_exit: 0,
            spawn_fails: false,
        }
    }
}

impl OsCore {
    /// The state of one volume.
    pub open spec fn spec_vol(self, d: Disk) -> VolState {
        match d {
            Disk::Zdani => self.zdani,
            Disk::Sivydatni => self.sivydatni,
            Disk::Muhackiku => self.muhackiku,
            Disk::Barda => self.barda,
            Disk::Sivbra => self.sivbra,
        }
    }

    /// A volume's state is coherent when a mounted filesystem has its mount
    /// point in place. Every state the OS itself can reach is coherent, and
    /// every operation in this crate preserves coherence: the mount-point
    /// directory is created before anything is mounted on it.
    pub open spec fn spec_coherent(self, d: Disk) -> bool {
        self.spec_vol(d).mounted ==> self.spec_vol(d).dir_exists
    }

    /// The core with one volume's state replaced.
    pub open spec fn spec_with_vol(self, d: Disk, v: VolState) -> OsCore {
        match d {
            Disk::Zdani => OsCore { zdani: v, ..self },
            Disk::Sivydatni => OsCore { sivydatni: v, ..self },
            Disk::Muhackiku => OsCore { muhackiku: v, ..self },
            Disk::Barda => OsCore { barda: v, ..self },
            Disk::Sivbra => OsCore { sivbra: v, ..self },
        }
    }

    /// Every volume at rest, every OS call succeeding.
    pub fn quiescent() -> (c: OsCore)
        ensures
            forall|d: Disk| c.spec_vol(d) == (VolState {
                device_present: true,
                dir_exists: false,
                mounted: false,
                mapping_active: false,
            }),
            c.faults == (Faults {
                mkdir_fails: false,
                mount_errno: 0,
                umount_errno: 0,
                unlock_exit: 0,
                lock_exit: 0,
                spawn_fails: false,
            }),
    {
        let v = VolState::at_rest();
        OsCore {
            zdani: v,
            sivydatni: v,
            muhackiku: v,
            barda: v,
            sivbra: v,
            faults: Faults::none(),
        }
    }

    /// Reads the state of one volume.
    pub fn vol(&self, d: Disk) -> (v: VolState)
        ensures
            v == self.spec_vol(d),
    {
        match d {
            Disk::Zdani => self.zdani,
            Disk::Sivydatni => self.sivydatni,
            Disk::Muhackiku => self.muhackiku,
            Disk::Barda => self.barda,
            Disk::Sivbra => self.sivbra,
        }
    }

    /// Replaces the state of one volume.
    pub fn set_vol(&mut self, d: Disk, v: VolState)
        ensures
            *final(self) == old(self).spec_with_vol(d, v),
    {
        match d {
            Disk::Zdani => self.zdani = v,
            Disk::Sivydatni => self.sivydatni = v,
            Disk::Muhackiku => self.muhackiku = v,
            Disk::Barda => self.barda = v,
            Disk::Sivbra => self.sivbra = v,
        }
    }
}

impl OsState {
    /// A model starting from the given OS-visible state, with an empty trace.
    pub fn start(core: OsCore) -> (s: OsState)
        ensures
            s.core == core,
            s.calls@ == Seq::<OsCall>::empty(),
    {
        OsState { core, calls: Vec::new() }
    }

    /// Records one OS-level call in the trace.
    pub fn record(&mut self, c: OsCall)
        ensures
            final(self).core == old(self).core,
            final(self).calls@ == old(self).calls@.push(c),
    {
        self.calls.push(c);
    }
}

} // verus!
