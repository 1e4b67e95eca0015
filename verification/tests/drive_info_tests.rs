use migrator::devices::{
    DiskExtent, DriveType, FileSystem, LogicalDrive, Partition, PhysicalDrive, Volume, VolumeType,
};
use migrator::drive_info::{assemble, DriveInfo, DriveProbe, Enumeration, MountProbe, VolumeInfo};
use migrator::error::MigErrorKind;

const UUID_A: &str = "345ad334-48a8-11e8-9eaf-806e6f6e6963";
const UUID_B: &str = "e907ceea-7513-4f34-a1d1-fee089d1dd4b";

fn volume_id(uuid: &str) -> String {
    format!("\\\\?\\Volume{{{}}}\\", uuid)
}

fn volume(uuid: &str, letter: Option<&str>, system: bool) -> Volume {
    Volume {
        device_id: volume_id(uuid),
        drive_type: VolumeType::LocalDisk,
        drive_letter: letter.map(String::from),
        system,
    }
}

fn mount(name: &str, disk_index: u64, start_offset: u64) -> MountProbe {
    MountProbe {
        drive: LogicalDrive {
            name: String::from(name),
            size: 1000,
            free_space: 400,
            compressed: false,
            file_system: FileSystem::Ntfs,
        },
        extents: vec![DiskExtent { disk_index, start_offset }],
    }
}

fn drive(index: u64, starts: &[u64]) -> DriveProbe {
    DriveProbe {
        drive: PhysicalDrive {
            index,
            drive_type: DriveType::Scsi,
            size: 1 << 40,
            device: format!("\\\\.\\PHYSICALDRIVE{}", index),
        },
        partitions: starts
            .iter()
            .enumerate()
            .map(|(i, s)| Partition { part_index: i as u32, start_offset: *s, size: 1 << 30 })
            .collect(),
    }
}

fn two_drive_host() -> Enumeration {
    Enumeration {
        efi_drive: Some(mount("Z:", 0, 1048576)),
        volumes: vec![
            volume(UUID_A, None, true),
            volume(UUID_B, Some("C:"), false),
            volume("00000000-0000-0000-0000-000000000001", Some("D:"), false),
        ],
        logical_drives: vec![mount("C:", 0, 500_000_000), mount("D:", 1, 1048576)],
        physical_drives: vec![drive(0, &[1048576, 500_000_000]), drive(1, &[1048576])],
    }
}

fn infos(d: &DriveInfo) -> Vec<VolumeInfo> {
    (0..d.volume_count()).map(|i| d.volume(i).clone()).collect()
}

#[test]
fn init_resolves_every_mounted_volume() {
    let d = DriveInfo::init(two_drive_host()).unwrap();
    let v = infos(&d);
    assert_eq!(v.len(), 3);
    assert_eq!(v[0].logical_drive.name, "Z:");
    assert_eq!(v[0].physical_drive.index, 0);
    assert_eq!(v[0].partition, Partition { part_index: 0, start_offset: 1048576, size: 1 << 30 });
    assert_eq!(v[0].part_uuid.as_deref(), Some(UUID_A));
    assert_eq!(v[1].logical_drive.name, "C:");
    assert_eq!(v[1].partition.part_index, 1);
    assert_eq!(v[1].part_uuid.as_deref(), Some(UUID_B));
    assert_eq!(v[2].logical_drive.name, "D:");
    assert_eq!(v[2].physical_drive.index, 1);
    assert_eq!(v[2].volume, two_drive_host().volumes[2]);
}

#[test]
fn new_is_init() {
    let a = DriveInfo::new(two_drive_host()).unwrap();
    let b = DriveInfo::init(two_drive_host()).unwrap();
    assert_eq!(infos(&a), infos(&b));
}

#[test]
fn every_mounted_partition_lies_on_exactly_one_drive() {
    let raw = two_drive_host();
    let d = DriveInfo::init(two_drive_host()).unwrap();
    for v in infos(&d) {
        let carriers = raw
            .physical_drives
            .iter()
            .filter(|p| p.drive.index == v.physical_drive.index && p.partitions.contains(&v.partition))
            .count();
        assert_eq!(carriers, 1);
    }
}

#[test]
fn volume_without_uuid_in_its_identifier_has_none() {
    let mut raw = two_drive_host();
    raw.volumes[1].device_id = String::from("\\\\?\\Volume{not-a-uuid}\\");
    let d = DriveInfo::init(raw).unwrap();
    assert_eq!(d.volume(1).part_uuid, None);
    assert_eq!(d.volume(0).part_uuid.as_deref(), Some(UUID_A));
}

#[test]
fn uuid_is_read_from_a_whole_identifier_only() {
    let mut raw = two_drive_host();
    raw.volumes[1].device_id = format!("x{}", volume_id(UUID_B));
    let d = DriveInfo::init(raw).unwrap();
    assert_eq!(d.volume(1).part_uuid, None);
}

#[test]
fn volumes_on_other_media_and_unmounted_volumes_are_left_out() {
    let mut raw = two_drive_host();
    raw.volumes[1].drive_type = VolumeType::CompactDisk;
    raw.volumes.push(volume("00000000-0000-0000-0000-000000000002", None, false));
    let d = DriveInfo::init(raw).unwrap();
    let names: Vec<String> = infos(&d).into_iter().map(|v| v.logical_drive.name).collect();
    assert_eq!(names, vec![String::from("Z:"), String::from("D:")]);
}

#[test]
fn only_the_first_system_volume_takes_the_efi_drive() {
    let mut raw = two_drive_host();
    raw.volumes.push(volume("00000000-0000-0000-0000-000000000003", None, true));
    let d = DriveInfo::init(raw).unwrap();
    assert_eq!(d.volume_count(), 3);
    let mut raw = two_drive_host();
    raw.efi_drive = None;
    let d = DriveInfo::init(raw).unwrap();
    assert_eq!(d.volume_count(), 2);
    assert_eq!(d.volume(0).logical_drive.name, "C:");
}

#[test]
fn removable_disks_are_part_of_the_topology() {
    let mut raw = two_drive_host();
    raw.volumes[2].drive_type = VolumeType::RemovableDisk;
    assert_eq!(DriveInfo::init(raw).unwrap().volume_count(), 3);
}

#[test]
fn missing_logical_drive_is_an_enumeration_failure() {
    let mut raw = two_drive_host();
    raw.volumes[1].drive_letter = Some(String::from("E:"));
    assert_eq!(DriveInfo::init(raw).unwrap_err().kind(), MigErrorKind::EnumFailed);
}

#[test]
fn missing_physical_drive_is_an_enumeration_failure() {
    let mut raw = two_drive_host();
    raw.logical_drives[1].extents[0].disk_index = 7;
    assert_eq!(DriveInfo::init(raw).unwrap_err().kind(), MigErrorKind::EnumFailed);
}

#[test]
fn volume_of_several_extents_is_rejected() {
    let mut raw = two_drive_host();
    raw.logical_drives[0].extents.push(DiskExtent { disk_index: 1, start_offset: 1048576 });
    assert_eq!(DriveInfo::init(raw).unwrap_err().kind(), MigErrorKind::InvParam);
    let mut raw = two_drive_host();
    raw.logical_drives[0].extents.clear();
    assert_eq!(DriveInfo::init(raw).unwrap_err().kind(), MigErrorKind::InvParam);
}

#[test]
fn extent_that_starts_no_partition_is_not_found() {
    let mut raw = two_drive_host();
    raw.logical_drives[0].extents[0].start_offset = 4711;
    assert_eq!(DriveInfo::init(raw).unwrap_err().kind(), MigErrorKind::NotFound);
}

#[test]
fn first_failure_in_the_order_of_the_volumes_counts() {
    let mut raw = two_drive_host();
    raw.logical_drives[0].extents[0].start_offset = 4711;
    raw.volumes[2].drive_letter = Some(String::from("E:"));
    assert_eq!(DriveInfo::init(raw).unwrap_err().kind(), MigErrorKind::NotFound);
}

#[test]
fn repeated_indexes_are_rejected() {
    let mut raw = two_drive_host();
    raw.physical_drives[1].drive.index = 0;
    assert!(!raw.is_valid());
    assert_eq!(DriveInfo::init(raw).unwrap_err().kind(), MigErrorKind::InvParam);
    let mut raw = two_drive_host();
    raw.physical_drives[0].partitions[1].part_index = 0;
    assert!(!raw.is_valid());
    assert_eq!(DriveInfo::new(raw).unwrap_err().kind(), MigErrorKind::InvParam);
    assert!(two_drive_host().is_valid());
}

#[test]
fn assemble_takes_the_uuids_as_given() {
    let raw = two_drive_host();
    let uuids = vec![None, Some(String::from("given")), None];
    let v = assemble(&raw, &uuids).unwrap();
    assert_eq!(v.len(), 3);
    assert_eq!(v[0].part_uuid, None);
    assert_eq!(v[1].part_uuid.as_deref(), Some("given"));
    let err = assemble(&raw, &vec![None]).unwrap_err();
    assert_eq!(err.kind(), MigErrorKind::InvParam);
}

#[test]
fn for_efi_drive_finds_the_first_system_volume() {
    let d = DriveInfo::init(two_drive_host()).unwrap();
    assert_eq!(d.for_efi_drive().unwrap().logical_drive.name, "Z:");
    let mut raw = two_drive_host();
    raw.volumes[0].system = false;
    let d = DriveInfo::init(raw).unwrap();
    assert_eq!(d.volume_count(), 2);
    let err = d.for_efi_drive().unwrap_err();
    assert_eq!(err.kind(), MigErrorKind::NotFound);
}

fn linux_host() -> DriveInfo {
    let mut raw = Enumeration {
        efi_drive: None,
        volumes: vec![
            volume(UUID_A, Some("/"), false),
            volume(UUID_B, Some("/boot"), false),
            volume("00000000-0000-0000-0000-000000000001", Some("/boot/efi"), true),
        ],
        logical_drives: vec![
            mount("/", 0, 300),
            mount("/boot", 0, 200),
            mount("/boot/efi", 0, 100),
        ],
        physical_drives: vec![drive(0, &[100, 200, 300])],
    };
    raw.logical_drives[1].drive.file_system = FileSystem::Ext4;
    DriveInfo::init(raw).unwrap()
}

#[test]
fn from_path_takes_the_longest_mount_point() {
    let d = linux_host();
    assert_eq!(d.from_path("/boot/efi/EFI/x").unwrap().logical_drive.name, "/boot/efi");
    assert_eq!(d.from_path("/boot/config.txt").unwrap().logical_drive.name, "/boot");
    assert_eq!(d.from_path("/boot").unwrap().logical_drive.name, "/boot");
    assert_eq!(d.from_path("/bootx").unwrap().logical_drive.name, "/");
    assert_eq!(d.from_path("/home/user/image.gz").unwrap().logical_drive.name, "/");
    assert_eq!(d.carrier_of("/boot/efi"), Some(2));
    assert_eq!(d.carrier_of("/"), Some(0));
}

#[test]
fn from_path_fails_where_nothing_carries_the_path() {
    let d = linux_host();
    assert_eq!(d.from_path("relative/path").unwrap_err().kind(), MigErrorKind::NotFound);
    assert_eq!(d.from_path("").unwrap_err().kind(), MigErrorKind::NotFound);
    assert_eq!(d.carrier_of("C:\\x"), None);
    let windows = DriveInfo::init(two_drive_host()).unwrap();
    assert_eq!(windows.from_path("C:\\Users\\x").unwrap().logical_drive.name, "C:");
    assert_eq!(windows.from_path("E:\\x").unwrap_err().kind(), MigErrorKind::NotFound);
}

#[test]
fn from_path_takes_the_first_of_equal_mount_points() {
    let raw = Enumeration {
        efi_drive: Some(mount("/data", 0, 200)),
        volumes: vec![volume(UUID_A, None, true), volume(UUID_B, Some("/data"), false)],
        logical_drives: vec![mount("/data", 0, 100)],
        physical_drives: vec![drive(0, &[100, 200])],
    };
    let d = DriveInfo::init(raw).unwrap();
    assert_eq!(d.carrier_of("/data/x"), Some(0));
    assert_eq!(d.from_path("/data/x").unwrap().part_uuid.as_deref(), Some(UUID_A));
}

#[test]
fn two_mounts_of_one_partition_are_rejected() {
    let raw = Enumeration {
        efi_drive: None,
        volumes: vec![volume(UUID_A, Some("/data"), false), volume(UUID_B, Some("/data"), false)],
        logical_drives: vec![mount("/data", 0, 100)],
        physical_drives: vec![drive(0, &[100])],
    };
    assert_eq!(DriveInfo::init(raw).unwrap_err().kind(), MigErrorKind::InvParam);
    let raw = Enumeration {
        efi_drive: None,
        volumes: vec![volume(UUID_A, Some("/a"), false), volume(UUID_B, Some("/b"), false)],
        logical_drives: vec![mount("/a", 0, 100), mount("/b", 0, 100)],
        physical_drives: vec![drive(0, &[100, 200])],
    };
    assert_eq!(DriveInfo::new(raw).unwrap_err().kind(), MigErrorKind::InvParam);
    let mut raw = two_drive_host();
    raw.logical_drives[1].extents[0] = DiskExtent { disk_index: 0, start_offset: 500_000_000 };
    assert_eq!(DriveInfo::init(raw).unwrap_err().kind(), MigErrorKind::InvParam);
    let mut raw = two_drive_host();
    raw.logical_drives[1].extents[0] = DiskExtent { disk_index: 0, start_offset: 4711 };
    raw.logical_drives[0].extents[0] = DiskExtent { disk_index: 0, start_offset: 1048576 };
    assert_eq!(DriveInfo::init(raw).unwrap_err().kind(), MigErrorKind::NotFound);
}

#[test]
fn no_two_volumes_of_a_topology_share_a_partition() {
    for d in [DriveInfo::init(two_drive_host()).unwrap(), linux_host()] {
        let v = infos(&d);
        for i in 0..v.len() {
            for j in 0..i {
                assert!(v[i].physical_drive.index != v[j].physical_drive.index || v[i].partition.part_index != v[j].partition.part_index);
            }
        }
    }
}
