//! The error taxonomy of the mount orchestration.
//!
//! Every failure a backend or the orchestrator can report is one of these
//! variants; the payload of the syscall variants is the OS error code, and the
//! payload of the encryption variants is the exit status of the external
//! encryption-management tool.

use vstd::prelude::*;

verus! {

#[derive(Clone, Copy, Debug, PartialEq, Eq, Structural)]
pub enum Error {
    /// The process does not run with effective super-user identity.
    PrivilegeRequired,
    /// The action token is not one of the known action tokens.
    InvalidAction,
    /// The volume token is not one of the known volume tokens.
    InvalidVolume,
    /// No device is registered under the requested UUID.
    DeviceNotFound,
    /// The mount-point directory was absent and could not be created.
    MountPathCreationFailed,
    /// The mount syscall failed with the carried OS error code.
    MountFailed(i32),
    /// The unmount syscall failed with the carried OS error code.
    UnmountFailed(i32),
    /// The external unlock operation exited with the carried nonzero status.
    UnlockFailed(i32),
    /// The external close operation exited with the carried nonzero status.
    LockFailed(i32),
    /// The interactive session process could not be spawned.
    SessionSpawnFailed,
}

impl Error {
    /// The single-line, human-readable description of each error.
    pub open spec fn spec_describe(self) -> Seq<char> {
        match self {
            Error::PrivilegeRequired => "must be run as root to (un)mount disks and open/close encryption"@,
            Error::InvalidAction => "unknown action. valid actions are m (mount), u (unmount), c (cd)."@,
            Error::InvalidVolume => "unknown disk. valid disks are z (zdani), s (sivydatni), m (muhackiku), b (barda), sb (sivbra)."@,
            Error::DeviceNotFound => "getting canonical device for by-UUID symlink failed"@,
            Error::MountPathCreationFailed => "creating mount path failed"@,
            Error::MountFailed(_) => "making mount syscall failed"@,
            Error::UnmountFailed(_) => "making umount syscall failed"@,
            Error::UnlockFailed(_) => "cryptsetup exited with an error while opening the encrypted device"@,
            Error::LockFailed(_) => "cryptsetup exited with an error while closing the encrypted device"@,
            Error::SessionSpawnFailed => "spawning sub-shell failed"@,
        }
    }

    /// Renders the error as its single-line description.
    pub fn describe(&self) -> (r: String)
        ensures
            r@ == self.spec_describe(),
    {
        match self {
            Error::PrivilegeRequired => String::from_str("must be run as root to (un)mount disks and open/close encryption"),
            Error::InvalidAction => String::from_str("unknown action. valid actions are m (mount), u (unmount), c (cd)."),
            Error::InvalidVolume => String::from_str("unknown disk. valid disks are z (zdani), s (sivydatni), m (muhackiku), b (barda), sb (sivbra)."),
            Error::DeviceNotFound => String::from_str("getting canonical device for by-UUID symlink failed"),
            Error::MountPathCreationFailed => String::from_str("creating mount path failed"),
            Error::MountFailed(_) => String::from_str("making mount syscall failed"),
            Error::UnmountFailed(_) => String::from_str("making umount syscall failed"),
            Error::UnlockFailed(_) => String::from_str("cryptsetup exited with an error while opening the encrypted device"),
            Error::LockFailed(_) => String::from_str("cryptsetup exited with an error while closing the encrypted device"),
            Error::SessionSpawnFailed => String::from_str("spawning sub-shell failed"),
        }
    }
}

} // verus!
