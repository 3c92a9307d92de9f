//! The closed, statically known set of mountable volumes.
//!
//! Each volume is an immutable record: a display name (which also derives its
//! mount point and, for encrypted volumes, its mapping name), a filesystem
//! type, and a [`Mountable`] descriptor saying how the volume is physically
//! realized. The mapping from volume to descriptor is a pure function of the
//! volume identity; nothing here is created or destroyed at runtime.

use vstd::prelude::*;

use crate::errors::Error;

verus! {

/// The command-line actions the tool performs.
#[derive(Clone, Copy, Debug, PartialEq, Eq, Structural)]
pub enum Action {
    Mount,
    Unmount,
    Cd,
}

/// A named storage volume from the fixed configuration table.
#[derive(Clone, Copy, Debug, Hash, PartialEq, Eq, Structural)]
pub enum Disk {
    Zdani,
    Sivydatni,
    Muhackiku,
    Barda,
    Sivbra,
}

/// How a volume is physically realized: either a filesystem directly on a
/// block device, or a filesystem inside an encrypted block device that must
/// be unlocked first.
pub enum Mountable {
    Plain { uuid: &'static str },
    Encrypted { outer_uuid: &'static str, inner_uuid: &'static str },
}

/// The action a token selects, if any: `m`, `u` or `c`.
pub open spec fn spec_action_for_token(t: Seq<char>) -> Option<Action> {
    if t == "m"@ {
        Some(Action::Mount)
    } else if t == "u"@ {
        Some(Action::Unmount)
    } else if t == "c"@ {
        Some(Action::Cd)
    } else {
        None
    }
}

/// The disk a token selects, if any: `z`, `s`, `m`, `b` or `sb`.
pub open spec fn spec_disk_for_token(t: Seq<char>) -> Option<Disk> {
    if t == "z"@ {
        Some(Disk::Zdani)
    } else if t == "s"@ {
        Some(Disk::Sivydatni)
    } else if t == "m"@ {
        Some(Disk::Muhackiku)
    } else if t == "b"@ {
        Some(Disk::Barda)
    } else if t == "sb"@ {
        Some(Disk::Sivbra)
    } else {
        None
    }
}

/// Compares two string slices by contents.
fn str_eq(a: &str, b: &str) -> (r: bool)
    ensures
        r == (a@ == b@),
{
    let sa: String = a.to_owned();
    let sb: String = b.to_owned();
    sa == sb
}

impl Action {
    /// Parses an action token, rejecting anything but `m`, `u` and `c`.
    pub fn from_str(s: &str) -> (r: Result<Action, Error>)
        ensures
            match r {
                Ok(a) => spec_action_for_token(s@) == Some(a),
                Err(e) => e == Error::InvalidAction && spec_action_for_token(s@) is None,
            },
    {
        if str_eq(s, "m") {
            Ok(Action::Mount)
        } else if str_eq(s, "u") {
            Ok(Action::Unmount)
        } else if str_eq(s, "c") {
            Ok(Action::Cd)
        } else {
            Err(Error::InvalidAction)
        }
    }
}

impl Disk {
    /// The display name of the volume.
    pub open spec fn spec_name(self) -> Seq<char> {
        match self {
            Disk::Zdani => "zdani"@,
            Disk::Sivydatni => "sivydatni"@,
            Disk::Muhackiku => "muhackiku"@,
            Disk::Barda => "barda"@,
            Disk::Sivbra => "sivbra"@,
        }
    }

    /// The filesystem type carried by the volume.
    pub open spec fn spec_filesystem(self) -> Seq<char> {
        "ext4"@
    }

    /// Whether the volume sits inside an encrypted block device.
    pub open spec fn spec_is_encrypted(self) -> bool {
        match self {
            Disk::Zdani => false,
            Disk::Sivydatni => true,
            Disk::Muhackiku => true,
            Disk::Barda => false,
            Disk::Sivbra => true,
        }
    }

    /// The UUID of the block device that is present while the volume is at
    /// rest: the filesystem device of a plain volume, the encrypted outer
    /// device of an encrypted one.
    pub open spec fn spec_backing_uuid(self) -> Seq<char> {
        match self {
            Disk::Zdani => "9972ca08-32d9-42da-9418-1afa4a7f6966"@,
            Disk::Sivydatni => "a02adf15-769d-4b61-9122-ddb3b3d1e7c2"@,
            Disk::Muhackiku => "809dbaf9-4c95-4baf-890c-e6866dd1a913"@,
            Disk::Barda => "8f8ccfd3-aeae-4515-b081-3706561c64d4"@,
            Disk::Sivbra => "5bd18b6b-1fc7-42e8-b318-c0c6d32ec86c"@,
        }
    }

    /// The UUID of the filesystem that actually gets mounted: for a plain
    /// volume the backing device itself, for an encrypted volume the inner
    /// plaintext device that appears once the mapping is open.
    pub open spec fn spec_mounted_uuid(self) -> Seq<char> {
        match self {
            Disk::Zdani => "9972ca08-32d9-42da-9418-1afa4a7f6966"@,
            Disk::Sivydatni => "ac80428f-f91d-4b99-9d40-c885d122be18"@,
            Disk::Muhackiku => "e1258f59-cb99-4b6b-8bd7-513c66d64439"@,
            Disk::Barda => "8f8ccfd3-aeae-4515-b081-3706561c64d4"@,
            Disk::Sivbra => "09edb833-774e-4480-b9fa-f9e81627b0d5"@,
        }
    }

    /// The display name of the volume.
    pub fn as_repr(self) -> (r: &'static str)
        ensures
            r@ == self.spec_name(),
    {
        match self {
            Disk::Zdani => "zdani",
            Disk::Sivydatni => "sivydatni",
            Disk::Muhackiku => "muhackiku",
            Disk::Barda => "barda",
            Disk::Sivbra => "sivbra",
        }
    }

    /// The filesystem type to pass to the mount syscall.
    pub fn inner_filesystem(self) -> (r: &'static str)
        ensures
            r@ == self.spec_filesystem(),
    {
        match self {
            Disk::Zdani | Disk::Sivydatni | Disk::Muhackiku | Disk::Barda | Disk::Sivbra => "ext4",
        }
    }

    /// The descriptor saying how the volume is physically realized.
    pub fn to_mountable(self) -> (r: Mountable)
        ensures
            match r {
                Mountable::Plain { uuid } => {
                    &&& !self.spec_is_encrypted()
                    &&& uuid@ == self.spec_backing_uuid()
                    &&& uuid@ == self.spec_mounted_uuid()
                },
                Mountable::Encrypted { outer_uuid, inner_uuid } => {
                    &&& self.spec_is_encrypted()
                    &&& outer_uuid@ == self.spec_backing_uuid()
                    &&& inner_uuid@ == self.spec_mounted_uuid()
                },
            },
    {
        match self {
            Disk::Zdani => Mountable::Plain { uuid: "9972ca08-32d9-42da-9418-1afa4a7f6966" },
            Disk::Sivydatni => Mountable::Encrypted {
                outer_uuid: "a02adf15-769d-4b61-9122-ddb3b3d1e7c2",
                inner_uuid: "ac80428f-f91d-4b99-9d40-c885d122be18",
            },
            Disk::Muhackiku => Mountable::Encrypted {
                outer_uuid: "809dbaf9-4c95-4baf-890c-e6866dd1a913",
                inner_uuid: "e1258f59-cb99-4b6b-8bd7-513c66d64439",
            },
            Disk::Barda => Mountable::Plain { uuid: "8f8ccfd3-aeae-4515-b081-3706561c64d4" },
            Disk::Sivbra => Mountable::Encrypted {
                outer_uuid: "5bd18b6b-1fc7-42e8-b318-c0c6d32ec86c",
                inner_uuid: "09edb833-774e-4480-b9fa-f9e81627b0d5",
            },
        }
    }

    /// Whether the volume needs an unlock step before it can be mounted.
    pub fn is_encrypted(self) -> (r: bool)
        ensures
            r == self.spec_is_encrypted(),
    {
        match self.to_mountable() {
            Mountable::Plain { .. } => false,
            Mountable::Encrypted { .. } => true,
        }
    }

    /// Parses a volume token, rejecting anything but `z`, `s`, `m`, `b` and
    /// `sb`.
    pub fn from_str(s: &str) -> (r: Result<Disk, Error>)
        ensures
            match r {
                Ok(d) => spec_disk_for_token(s@) == Some(d),
                Err(e) => e == Error::InvalidVolume && spec_disk_for_token(s@) is None,
            },
    {
        if str_eq(s, "z") {
            Ok(Disk::Zdani)
        } else if str_eq(s, "s") {
            Ok(Disk::Sivydatni)
        } else if str_eq(s, "m") {
            Ok(Disk::Muhackiku)
        } else if str_eq(s, "b") {
            Ok(Disk::Barda)
        } else if str_eq(s, "sb") {
            Ok(Disk::Sivbra)
        } else {
            Err(Error::InvalidVolume)
        }
    }
}

} // verus!
