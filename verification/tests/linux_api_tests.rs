use migrator::defs::OSArch;
use migrator::devices::{
    DiskExtent, DriveType, FileSystem, LogicalDrive, Partition, PhysicalDrive, Volume, VolumeType,
};
use migrator::drive_info::{DriveInfo, DriveProbe, Enumeration, MountProbe};
use migrator::error::MigErrorKind;
use migrator::linux_api::LinuxAPI;

fn host(drive_type: DriveType) -> DriveInfo {
    let volume = |id: &str, letter: &str| Volume {
        device_id: String::from(id),
        drive_type: VolumeType::LocalDisk,
        drive_letter: Some(String::from(letter)),
        system: false,
    };
    let mount = |name: &str, start: u64, fs: FileSystem| MountProbe {
        drive: LogicalDrive {
            name: String::from(name),
            size: 4000,
            free_space: 1000,
            compressed: false,
            file_system: fs,
        },
        extents: vec![DiskExtent { disk_index: 1, start_offset: start }],
    };
    DriveInfo::new(Enumeration {
        efi_drive: None,
        volumes: vec![
            volume("\\\\?\\Volume{e907ceea-7513-4f34-a1d1-fee089d1dd4b}\\", "/"),
            volume("no uuid here", "/boot"),
        ],
        logical_drives: vec![mount("/", 2000, FileSystem::Ext4), mount("/boot", 1000, FileSystem::VFat)],
        physical_drives: vec![DriveProbe {
            drive: PhysicalDrive { index: 1, drive_type, size: 1 << 35, device: String::from("sdb") },
            partitions: vec![
                Partition { part_index: 0, start_offset: 1000, size: 1000 },
                Partition { part_index: 1, start_offset: 2000, size: 2000 },
            ],
        }],
    })
    .unwrap()
}

#[test]
fn get_os_arch_knows_the_machine_names() {
    assert_eq!(LinuxAPI::get_os_arch("x86_64").unwrap(), OSArch::AMD64);
    assert_eq!(LinuxAPI::get_os_arch("i386").unwrap(), OSArch::I386);
    assert_eq!(LinuxAPI::get_os_arch("i686").unwrap(), OSArch::I386);
    assert_eq!(LinuxAPI::get_os_arch("armv7l").unwrap(), OSArch::ARMHF);
    assert_eq!(LinuxAPI::get_os_arch("armv6l").unwrap(), OSArch::ARMHF);
    assert_eq!(LinuxAPI::get_os_arch("riscv64").unwrap_err().kind(), MigErrorKind::InvParam);
    assert_eq!(LinuxAPI::get_os_arch("").unwrap_err().kind(), MigErrorKind::InvParam);
}

#[test]
fn resolved_path_begins_with_its_mount_point() {
    let topology = host(DriveType::Scsi);
    let api = LinuxAPI::new(&topology);
    for path in ["/boot/config.txt", "/boot", "/home/user/balena.img.gz", "/"] {
        let info = api.path_info_from_path(path).unwrap();
        assert_eq!(info.get_path(), path);
        assert!(path.starts_with(info.get_mountpoint()));
    }
}

#[test]
fn path_info_from_path_resolves_on_the_carrying_volume() {
    let topology = host(DriveType::Scsi);
    let api = LinuxAPI::new(&topology);
    let boot = api.path_info_from_path("/boot/config.txt").unwrap();
    assert_eq!(boot.get_mountpoint(), "/boot");
    assert_eq!(boot.get_linux_drive(), "/dev/sdb");
    assert_eq!(boot.get_linux_part(), "/dev/sdb1");
    assert_eq!(boot.get_partuuid(), None);
    assert_eq!(boot.get_linux_fstype(), "vfat");
    assert_eq!(boot.get_fs_free(), 1000);
    assert_eq!(boot.get_fs_size(), 4000);
    assert_eq!(boot.get_part_size(), 1000);
    let root = api.path_info_from_path("/etc/fstab").unwrap();
    assert_eq!(root.get_mountpoint(), "/");
    assert_eq!(root.get_partuuid(), Some("e907ceea-7513-4f34-a1d1-fee089d1dd4b"));
    assert_eq!(root.get_linux_part(), "/dev/disk/by-partuuid/e907ceea-7513-4f34-a1d1-fee089d1dd4b");
    assert_eq!(root.get_part_size(), 2000);
}

#[test]
fn path_info_from_path_fails_with_not_found() {
    let topology = host(DriveType::Scsi);
    let api = LinuxAPI::new(&topology);
    assert_eq!(api.path_info_from_path("boot").unwrap_err().kind(), MigErrorKind::NotFound);
}

#[test]
fn path_info_from_path_fails_for_a_drive_without_a_name() {
    let topology = host(DriveType::Other);
    let api = LinuxAPI::new(&topology);
    assert_eq!(api.path_info_from_path("/boot/x").unwrap_err().kind(), MigErrorKind::NotImpl);
}

#[test]
fn device_info_from_partition_is_the_inverse_mapping() {
    let topology = host(DriveType::Ide);
    let api = LinuxAPI::new(&topology);
    let (drive, partition) = api.device_info_from_partition("/dev/hdb1").unwrap();
    assert_eq!(drive.index, 1);
    assert_eq!(partition.part_index, 0);
    let (_, partition) = api
        .device_info_from_partition("/dev/disk/by-partuuid/e907ceea-7513-4f34-a1d1-fee089d1dd4b")
        .unwrap();
    assert_eq!(partition.part_index, 1);
    assert_eq!(api.device_info_from_partition("/dev/hdb2").unwrap_err().kind(), MigErrorKind::NotFound);
    assert_eq!(api.device_info_from_partition("/dev/hdb").unwrap_err().kind(), MigErrorKind::NotFound);
}
