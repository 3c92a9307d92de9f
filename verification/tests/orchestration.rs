use dmount::close_encrypted;
use dmount::do_cd;
use dmount::do_mount;
use dmount::do_unmount;
use dmount::open_encrypted;
use dmount::Disk;
use dmount::Error;
use dmount::OsCall;
use dmount::OsCore;
use dmount::OsState;

fn quiescent_state() -> OsState {
    OsState::start(OsCore::quiescent())
}

#[test]
fn mount_plain_fresh_volume() {
    let mut sys = quiescent_state();
    let r = do_mount(&mut sys, Disk::Zdani).unwrap();
    assert_eq!(r.mount_path, "/mnt/zdani");
    assert!(!r.was_already_mounted);
    assert_eq!(
        sys.calls,
        vec![OsCall::DirCheck, OsCall::DirCreate, OsCall::DeviceResolve, OsCall::MountSyscall]
    );
    assert_eq!(sys.calls.iter().filter(|c| **c == OsCall::MountSyscall).count(), 1);
    assert!(sys.core.zdani.mounted);
    assert!(sys.core.zdani.dir_exists);
    assert!(!sys.core.sivydatni.mounted);
}

#[test]
fn mount_encrypted_fresh_volume_unlocks_first() {
    let mut sys = quiescent_state();
    let r = do_mount(&mut sys, Disk::Sivydatni).unwrap();
    assert_eq!(r.mount_path, "/mnt/sivydatni");
    assert!(!r.was_already_mounted);
    assert_eq!(
        sys.calls,
        vec![
            OsCall::MappingStatusCheck,
            OsCall::DeviceResolve,
            OsCall::UnlockAttempt,
            OsCall::DirCheck,
            OsCall::DirCreate,
            OsCall::DeviceResolve,
            OsCall::MountSyscall,
        ]
    );
    assert!(sys.core.sivydatni.mapping_active);
    assert!(sys.core.sivydatni.mounted);
}

#[test]
fn second_mount_reports_already_mounted() {
    for d in [Disk::Zdani, Disk::Sivydatni, Disk::Muhackiku, Disk::Barda, Disk::Sivbra] {
        let mut sys = quiescent_state();
        let first = do_mount(&mut sys, d).unwrap();
        assert!(!first.was_already_mounted);
        let core_after_first = sys.core;
        let calls_before_second = sys.calls.len();

        let second = do_mount(&mut sys, d).unwrap();
        assert!(second.was_already_mounted);
        assert_eq!(sys.core, core_after_first);
        let second_calls = &sys.calls[calls_before_second..];
        assert!(!second_calls.contains(&OsCall::UnlockAttempt));
        assert!(!second_calls.contains(&OsCall::DirCreate));
        assert_eq!(second_calls.iter().filter(|c| **c == OsCall::MountSyscall).count(), 1);
    }
}

#[test]
fn unmount_never_mounted_volume_is_a_noop() {
    for d in [Disk::Zdani, Disk::Sivydatni, Disk::Muhackiku, Disk::Barda, Disk::Sivbra] {
        let mut sys = quiescent_state();
        let before = sys.core;
        assert_eq!(do_unmount(&mut sys, d), Ok(()));
        assert_eq!(sys.core, before);
    }
}

#[test]
fn unmount_never_opened_encrypted_volume_tolerates_both() {
    let mut sys = quiescent_state();
    sys.core.sivydatni.dir_exists = true;
    assert_eq!(do_unmount(&mut sys, Disk::Sivydatni), Ok(()));
    assert!(!sys.calls.contains(&OsCall::CloseAttempt));
    assert!(sys.calls.contains(&OsCall::MappingStatusCheck));
}

#[test]
fn unmount_detaches_before_closing_and_closes_regardless() {
    let mut sys = quiescent_state();
    sys.core.muhackiku.dir_exists = true;
    sys.core.muhackiku.mounted = true;
    sys.core.muhackiku.mapping_active = true;
    sys.core.faults.umount_errno = 16;
    let r = do_unmount(&mut sys, Disk::Muhackiku);
    assert_eq!(r, Err(Error::UnmountFailed(16)));
    let umount_at = sys.calls.iter().position(|c| *c == OsCall::UmountSyscall).unwrap();
    let close_at = sys.calls.iter().position(|c| *c == OsCall::CloseAttempt).unwrap();
    assert!(umount_at < close_at);
    assert!(!sys.core.muhackiku.mapping_active);
    assert!(sys.core.muhackiku.mounted);
}

#[test]
fn unmount_then_close_in_the_good_case() {
    let mut sys = quiescent_state();
    sys.core.sivbra.dir_exists = true;
    sys.core.sivbra.mounted = true;
    sys.core.sivbra.mapping_active = true;
    assert_eq!(do_unmount(&mut sys, Disk::Sivbra), Ok(()));
    assert_eq!(
        sys.calls,
        vec![
            OsCall::DirCheck,
            OsCall::UmountSyscall,
            OsCall::MappingStatusCheck,
            OsCall::CloseAttempt,
        ]
    );
    assert!(!sys.core.sivbra.mounted);
    assert!(!sys.core.sivbra.mapping_active);
}

#[test]
fn open_with_active_mapping_never_prompts() {
    let mut sys = quiescent_state();
    sys.core.sivydatni.mapping_active = true;
    let before = sys.core;
    assert_eq!(open_encrypted(&mut sys, Disk::Sivydatni), Ok(()));
    assert_eq!(sys.calls, vec![OsCall::MappingStatusCheck]);
    assert_eq!(sys.core, before);
}

#[test]
fn close_without_active_mapping_is_tolerated() {
    let mut sys = quiescent_state();
    assert_eq!(close_encrypted(&mut sys, Disk::Sivbra), Ok(()));
    assert_eq!(sys.calls, vec![OsCall::MappingStatusCheck]);
}

#[test]
fn missing_device_fails_mount() {
    let mut sys = quiescent_state();
    sys.core.zdani.device_present = false;
    assert_eq!(do_mount(&mut sys, Disk::Zdani).unwrap_err(), Error::DeviceNotFound);
    assert!(!sys.calls.contains(&OsCall::MountSyscall));
}

#[test]
fn missing_outer_device_fails_unlock() {
    let mut sys = quiescent_state();
    sys.core.muhackiku.device_present = false;
    assert_eq!(do_mount(&mut sys, Disk::Muhackiku).unwrap_err(), Error::DeviceNotFound);
    assert!(!sys.calls.contains(&OsCall::UnlockAttempt));
    assert!(!sys.calls.contains(&OsCall::MountSyscall));
}

#[test]
fn mkdir_failure_fails_mount() {
    let mut sys = quiescent_state();
    sys.core.faults.mkdir_fails = true;
    assert_eq!(do_mount(&mut sys, Disk::Barda).unwrap_err(), Error::MountPathCreationFailed);
    assert!(!sys.core.barda.dir_exists);
}

#[test]
fn mount_syscall_failure_carries_the_code() {
    let mut sys = quiescent_state();
    sys.core.faults.mount_errno = 5;
    assert_eq!(do_mount(&mut sys, Disk::Zdani).unwrap_err(), Error::MountFailed(5));
    assert!(!sys.core.zdani.mounted);
}

#[test]
fn unlock_failure_carries_the_exit_status_and_skips_mount() {
    let mut sys = quiescent_state();
    sys.core.faults.unlock_exit = 2;
    assert_eq!(do_mount(&mut sys, Disk::Sivydatni).unwrap_err(), Error::UnlockFailed(2));
    assert!(!sys.calls.contains(&OsCall::MountSyscall));
    assert!(!sys.core.sivydatni.mapping_active);
}

#[test]
fn umount_failure_carries_the_code() {
    let mut sys = quiescent_state();
    sys.core.barda.dir_exists = true;
    sys.core.barda.mounted = true;
    sys.core.faults.umount_errno = 16;
    assert_eq!(do_unmount(&mut sys, Disk::Barda), Err(Error::UnmountFailed(16)));
    assert!(sys.core.barda.mounted);
}

#[test]
fn close_failure_carries_the_exit_status() {
    let mut sys = quiescent_state();
    sys.core.sivbra.mapping_active = true;
    assert_eq!(do_unmount(&mut sys, Disk::Sivbra), Ok(()));
    let mut sys = quiescent_state();
    sys.core.sivbra.mapping_active = true;
    sys.core.faults.lock_exit = 5;
    assert_eq!(do_unmount(&mut sys, Disk::Sivbra), Err(Error::LockFailed(5)));
}

#[test]
fn session_on_encrypted_volume_warns_when_close_fails() {
    let mut sys = quiescent_state();
    sys.core.faults.lock_exit = 5;
    let report = do_cd(&mut sys, Disk::Muhackiku).unwrap();
    assert_eq!(report.mount_path, "/mnt/muhackiku");
    assert!(report.used_isolation_flag);
    assert!(!report.was_already_mounted);
    assert!(!report.skipped_unmount);
    assert_eq!(report.unmount_warning, Some(Error::LockFailed(5)));
    assert!(sys.calls.contains(&OsCall::ShellSpawn));
    assert!(!sys.core.muhackiku.mounted);
    assert!(sys.core.muhackiku.mapping_active);
}

#[test]
fn session_on_plain_volume_uses_no_isolation_flag() {
    let mut sys = quiescent_state();
    let report = do_cd(&mut sys, Disk::Zdani).unwrap();
    assert!(!report.used_isolation_flag);
    assert!(!report.skipped_unmount);
    assert_eq!(report.unmount_warning, None);
    assert!(!sys.core.zdani.mounted);
}

#[test]
fn session_skips_unmount_when_volume_was_already_mounted() {
    let mut sys = quiescent_state();
    sys.core.zdani.dir_exists = true;
    sys.core.zdani.mounted = true;
    let report = do_cd(&mut sys, Disk::Zdani).unwrap();
    assert!(report.was_already_mounted);
    assert!(report.skipped_unmount);
    assert_eq!(report.unmount_warning, None);
    assert!(sys.core.zdani.mounted);
    assert!(!sys.calls.contains(&OsCall::UmountSyscall));
}

#[test]
fn session_spawn_failure_propagates() {
    let mut sys = quiescent_state();
    sys.core.faults.spawn_fails = true;
    assert_eq!(do_cd(&mut sys, Disk::Barda).unwrap_err(), Error::SessionSpawnFailed);
    assert!(sys.core.barda.mounted);
}
