use dmount::dev_registry_path_for_uuid;
use dmount::mount_path_for_name;
use dmount::opened_name_for_encrypted;
use dmount::Disk;
use dmount::Mountable;

#[test]
fn mount_path_is_under_mnt() {
    assert_eq!(mount_path_for_name("zdani"), "/mnt/zdani");
    assert_eq!(mount_path_for_name("sivydatni"), "/mnt/sivydatni");
    assert_eq!(mount_path_for_name(""), "/mnt/");
}

#[test]
fn mount_path_is_stable_across_calls() {
    assert_eq!(mount_path_for_name("muhackiku"), mount_path_for_name("muhackiku"));
}

#[test]
fn dev_registry_path_is_by_uuid() {
    assert_eq!(
        dev_registry_path_for_uuid("9972ca08-32d9-42da-9418-1afa4a7f6966"),
        "/dev/disk/by-uuid/9972ca08-32d9-42da-9418-1afa4a7f6966"
    );
}

#[test]
fn opened_name_joins_uuid_and_name() {
    assert_eq!(
        opened_name_for_encrypted("a02adf15-769d-4b61-9122-ddb3b3d1e7c2", "sivydatni"),
        "a02adf15-769d-4b61-9122-ddb3b3d1e7c2-sivydatni"
    );
}

#[test]
fn volume_names_and_kinds() {
    assert_eq!(Disk::Zdani.as_repr(), "zdani");
    assert_eq!(Disk::Sivydatni.as_repr(), "sivydatni");
    assert_eq!(Disk::Muhackiku.as_repr(), "muhackiku");
    assert_eq!(Disk::Barda.as_repr(), "barda");
    assert_eq!(Disk::Sivbra.as_repr(), "sivbra");

    assert!(!Disk::Zdani.is_encrypted());
    assert!(Disk::Sivydatni.is_encrypted());
    assert!(Disk::Muhackiku.is_encrypted());
    assert!(!Disk::Barda.is_encrypted());
    assert!(Disk::Sivbra.is_encrypted());

    for d in [Disk::Zdani, Disk::Sivydatni, Disk::Muhackiku, Disk::Barda, Disk::Sivbra] {
        assert_eq!(d.inner_filesystem(), "ext4");
    }
}

#[test]
fn volume_descriptors_carry_the_uuids() {
    match Disk::Zdani.to_mountable() {
        Mountable::Plain { uuid } => assert_eq!(uuid, "9972ca08-32d9-42da-9418-1afa4a7f6966"),
        Mountable::Encrypted { .. } => panic!("zdani is a plain volume"),
    }
    match Disk::Sivydatni.to_mountable() {
        Mountable::Encrypted { outer_uuid, inner_uuid } => {
            assert_eq!(outer_uuid, "a02adf15-769d-4b61-9122-ddb3b3d1e7c2");
            assert_eq!(inner_uuid, "ac80428f-f91d-4b99-9d40-c885d122be18");
        },
        Mountable::Plain { .. } => panic!("sivydatni is an encrypted volume"),
    }
    match Disk::Muhackiku.to_mountable() {
        Mountable::Encrypted { outer_uuid, inner_uuid } => {
            assert_eq!(outer_uuid, "809dbaf9-4c95-4baf-890c-e6866dd1a913");
            assert_eq!(inner_uuid, "e1258f59-cb99-4b6b-8bd7-513c66d64439");
        },
        Mountable::Plain { .. } => panic!("muhackiku is an encrypted volume"),
    }
    match Disk::Barda.to_mountable() {
        Mountable::Plain { uuid } => assert_eq!(uuid, "8f8ccfd3-aeae-4515-b081-3706561c64d4"),
        Mountable::Encrypted { .. } => panic!("barda is a plain volume"),
    }
    match Disk::Sivbra.to_mountable() {
        Mountable::Encrypted { outer_uuid, inner_uuid } => {
            assert_eq!(outer_uuid, "5bd18b6b-1fc7-42e8-b318-c0c6d32ec86c");
            assert_eq!(inner_uuid, "09edb833-774e-4480-b9fa-f9e81627b0d5");
        },
        Mountable::Plain { .. } => panic!("sivbra is an encrypted volume"),
    }
}
