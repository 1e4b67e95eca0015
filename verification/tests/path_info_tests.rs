use migrator::devices::{DriveType, FileSystem, LogicalDrive, Partition, PhysicalDrive, Volume, VolumeType};
use migrator::error::MigErrorKind;
use migrator::path_info::PathInfo;

fn sample_volume(device_id: &str) -> Volume {
    Volume {
        device_id: String::from(device_id),
        drive_type: VolumeType::LocalDisk,
        drive_letter: Some(String::from("C:")),
        system: false,
    }
}

fn sample_drive(drive_type: DriveType, index: u64) -> PhysicalDrive {
    PhysicalDrive { index, drive_type, size: 256 * 1024 * 1024 * 1024, device: String::from("\\\\.\\PHYSICALDRIVE0") }
}

fn sample_mount() -> LogicalDrive {
    LogicalDrive {
        name: String::from("C:"),
        size: 200_000_000_000,
        free_space: 50_000_000_000,
        compressed: false,
        file_system: FileSystem::Ntfs,
    }
}

#[test]
fn path_info_new_with_partuuid() {
    let volume = sample_volume("\\\\?\\Volume{e907ceea-7513-4f34-a1d1-fee089d1dd4b}\\");
    let partition = Partition { part_index: 1, start_offset: 1048576, size: 100_000_000_000 };
    let info = PathInfo::new(
        "C:\\Users\\test\\balena.img",
        &volume,
        &sample_drive(DriveType::Scsi, 0),
        &partition,
        &sample_mount(),
    )
    .unwrap();
    assert_eq!(info.get_partuuid(), Some("e907ceea-7513-4f34-a1d1-fee089d1dd4b"));
    assert_eq!(info.get_linux_drive(), "/dev/sda");
    assert_eq!(info.get_linux_part(), "/dev/disk/by-partuuid/e907ceea-7513-4f34-a1d1-fee089d1dd4b");
    assert_eq!(info.get_path(), "C:\\Users\\test\\balena.img");
    assert_eq!(info.get_linux_path(), "/Users/test/balena.img");
    assert_eq!(info.get_linux_fstype(), "ntfs");
    assert_eq!(info.get_mountpoint(), "C:");
    assert_eq!(info.get_fs_free(), 50_000_000_000);
}

#[test]
fn path_info_new_without_partuuid_names_partition_by_number() {
    let volume = sample_volume("no volume id");
    let partition = Partition { part_index: 11, start_offset: 1048576, size: 100_000_000_000 };
    let info = PathInfo::new("D:\\x", &volume, &sample_drive(DriveType::Ide, 2), &partition, &sample_mount()).unwrap();
    assert_eq!(info.get_partuuid(), None);
    assert_eq!(info.get_linux_drive(), "/dev/hdc");
    assert_eq!(info.get_linux_part(), "/dev/hdc12");
}

#[test]
fn path_info_new_rejects_other_drive_type() {
    let volume = sample_volume("no volume id");
    let partition = Partition { part_index: 0, start_offset: 0, size: 1 };
    let err = PathInfo::new("C:\\x", &volume, &sample_drive(DriveType::Other, 0), &partition, &sample_mount()).unwrap_err();
    assert_eq!(err.kind(), MigErrorKind::NotImpl);
}

#[test]
fn path_info_new_finds_the_uuid_within_a_longer_identifier() {
    let volume = sample_volume("prefix \\\\?\\Volume{e907ceea-7513-4f34-a1d1-fee089d1dd4b}\\ suffix");
    let partition = Partition { part_index: 0, start_offset: 0, size: 1 };
    let info = PathInfo::new("C:\\x", &volume, &sample_drive(DriveType::Scsi, 4), &partition, &sample_mount()).unwrap();
    assert_eq!(info.get_partuuid(), Some("e907ceea-7513-4f34-a1d1-fee089d1dd4b"));
    assert_eq!(info.get_linux_drive(), "/dev/sde");
}

#[test]
fn path_info_new_rejects_a_drive_index_without_a_letter() {
    let volume = sample_volume("no volume id");
    let partition = Partition { part_index: 0, start_offset: 0, size: 1 };
    let err = PathInfo::new("C:\\x", &volume, &sample_drive(DriveType::Scsi, 5), &partition, &sample_mount()).unwrap_err();
    assert_eq!(err.kind(), MigErrorKind::NotImpl);
}

#[test]
fn from_parts_takes_the_uuid_as_given() {
    let partition = Partition { part_index: 2, start_offset: 0, size: 77 };
    let info = PathInfo::from_parts(
        "/boot/x",
        Some(String::from("abc")),
        &sample_drive(DriveType::Ide, 1),
        &partition,
        &sample_mount(),
    )
    .unwrap();
    assert_eq!(info.get_partuuid(), Some("abc"));
    assert_eq!(info.get_linux_part(), "/dev/disk/by-partuuid/abc");
    assert_eq!(info.get_linux_drive(), "/dev/hdb");
    assert_eq!(info.get_part_size(), 77);
    assert_eq!(info.get_fs_size(), 200_000_000_000);
    let info = PathInfo::from_parts("/boot/x", None, &sample_drive(DriveType::Ide, 1), &partition, &sample_mount()).unwrap();
    assert_eq!(info.get_linux_part(), "/dev/hdb3");
    assert_eq!(info.clone(), info);
}

#[test]
fn get_linux_path_drops_the_drive_and_turns_backslashes() {
    let partition = Partition { part_index: 0, start_offset: 0, size: 1 };
    let make = |path: &str| {
        PathInfo::from_parts(path, None, &sample_drive(DriveType::Scsi, 0), &partition, &sample_mount())
            .unwrap()
            .get_linux_path()
    };
    assert_eq!(make("C:\\Users\\x"), "/Users/x");
    assert_eq!(make("z:"), "");
    assert_eq!(make("/already/linux"), "/already/linux");
    assert_eq!(make("1:\\x"), "1:/x");
    assert_eq!(make("C"), "C");
    assert_eq!(make(""), "");
}

#[test]
fn file_system_names() {
    assert_eq!(FileSystem::Ext2.to_linux_str(), "ext2");
    assert_eq!(FileSystem::Ext3.to_linux_str(), "ext3");
    assert_eq!(FileSystem::Ext4.to_linux_str(), "ext4");
    assert_eq!(FileSystem::VFat.to_linux_str(), "vfat");
    assert_eq!(FileSystem::Ntfs.to_linux_str(), "ntfs");
    assert_eq!(FileSystem::Other.to_linux_str(), "");
}

#[test]
fn require_partuuid_rejects_a_path_without_one() {
    let partition = Partition { part_index: 0, start_offset: 0, size: 1 };
    let with = PathInfo::from_parts("/x", Some(String::from("abc")), &sample_drive(DriveType::Scsi, 0), &partition, &sample_mount()).unwrap();
    assert_eq!(with.require_partuuid().unwrap(), "abc");
    let without = PathInfo::from_parts("/x", None, &sample_drive(DriveType::Scsi, 0), &partition, &sample_mount()).unwrap();
    assert_eq!(without.require_partuuid().unwrap_err().kind(), MigErrorKind::NoMatch);
}
