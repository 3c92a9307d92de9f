//! Mount orchestration for a small, statically known set of storage volumes.
//!
//! The library models the OS-visible state that mounting touches (the mount
//! table, the encryption-mapping namespace, mount-point directories and the
//! device registry) and implements the mount/unmount/session orchestration as
//! verified transitions over that model. Every operation is idempotency-safe:
//! it tolerates partial prior state, such as an already-mounted filesystem or
//! an already-open encryption mapping.

mod backend;
mod errors;
mod laws;
mod model;
mod orchestrator;
mod paths;
mod session;
mod volume;

pub use backend::close_encrypted;
pub use backend::mount;
pub use backend::open_encrypted;
pub use backend::spec_close_encrypted;
pub use backend::spec_device_available;
pub use backend::spec_mount;
pub use backend::spec_open_encrypted;
pub use backend::spec_unmount;
pub use backend::unmount;
pub use backend::DeviceRef;
pub use backend::MountReturn;
pub use backend::StepOutcome;
pub use errors::Error;
pub use laws::lemma_do_mount_idempotent;
pub use laws::lemma_do_mount_success_mounts;
pub use laws::lemma_do_unmount_fresh_is_noop;
pub use laws::lemma_do_unmount_success_tears_down;
pub use laws::lemma_do_unmount_orders_close_last;
pub use laws::lemma_open_active_skips_unlock;
pub use model::Faults;
pub use model::OsCall;
pub use model::OsCore;
pub use model::OsState;
pub use model::VolState;
pub use orchestrator::do_mount;
pub use orchestrator::do_unmount;
pub use orchestrator::spec_do_mount;
pub use orchestrator::spec_do_unmount;
pub use paths::dev_registry_path_for_uuid;
pub use paths::mount_path_for_name;
pub use paths::opened_name_for_encrypted;
pub use paths::spec_dev_registry_path;
pub use paths::spec_mount_path;
pub use paths::spec_opened_name;
pub use session::do_cd;
pub use session::spec_do_cd;
pub use session::SessionReport;
pub use session::SessionSpec;
pub use volume::spec_action_for_token;
pub use volume::spec_disk_for_token;
pub use volume::Action;
pub use volume::Disk;
pub use volume::Mountable;
