use dmount::Action;
use dmount::Disk;
use dmount::Error;

#[test]
fn action_tokens_parse() {
    assert_eq!(Action::from_str("m"), Ok(Action::Mount));
    assert_eq!(Action::from_str("u"), Ok(Action::Unmount));
    assert_eq!(Action::from_str("c"), Ok(Action::Cd));
}

#[test]
fn unknown_action_token_is_rejected() {
    let err = Action::from_str("x").unwrap_err();
    assert_eq!(err, Error::InvalidAction);
    let msg = err.describe();
    assert!(msg.contains("m (mount)"));
    assert!(msg.contains("u (unmount)"));
    assert!(msg.contains("c (cd)"));
}

#[test]
fn disk_tokens_parse() {
    assert_eq!(Disk::from_str("z"), Ok(Disk::Zdani));
    assert_eq!(Disk::from_str("s"), Ok(Disk::Sivydatni));
    assert_eq!(Disk::from_str("m"), Ok(Disk::Muhackiku));
    assert_eq!(Disk::from_str("b"), Ok(Disk::Barda));
    assert_eq!(Disk::from_str("sb"), Ok(Disk::Sivbra));
}

#[test]
fn unknown_disk_token_lists_valid_tokens() {
    let err = Disk::from_str("x").unwrap_err();
    assert_eq!(err, Error::InvalidVolume);
    let msg = err.describe();
    assert!(msg.contains("z (zdani)"));
    assert!(msg.contains("s (sivydatni)"));
    assert!(msg.contains("m (muhackiku)"));
    assert!(msg.contains("b (barda)"));
    assert!(msg.contains("sb (sivbra)"));
}

#[test]
fn empty_token_is_rejected() {
    assert_eq!(Disk::from_str(""), Err(Error::InvalidVolume));
    assert_eq!(Action::from_str(""), Err(Error::InvalidAction));
}

#[test]
fn every_error_has_a_description() {
    let errors = vec![
        Error::PrivilegeRequired,
        Error::InvalidAction,
        Error::InvalidVolume,
        Error::DeviceNotFound,
        Error::MountPathCreationFailed,
        Error::MountFailed(16),
        Error::UnmountFailed(22),
        Error::UnlockFailed(2),
        Error::LockFailed(5),
        Error::SessionSpawnFailed,
    ];
    for e in errors {
        assert!(!e.describe().is_empty());
    }
}
