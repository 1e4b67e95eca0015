use migrator::defs::OSArch;
use migrator::devices::{DriveType, FileSystem, LogicalDrive, Partition, PhysicalDrive};
use migrator::error::{MigError, MigErrorKind};
use migrator::migrate_info::{DiskInfo, FileInfo, MigrateInfoBuilder, WifiConfig};
use migrator::path_info::PathInfo;

fn path_info(path: &str, mount: &str, part_index: u32, fs: FileSystem) -> PathInfo {
    PathInfo::from_parts(
        path,
        None,
        &PhysicalDrive { index: 0, drive_type: DriveType::Scsi, size: 1 << 35, device: String::from("sda") },
        &Partition { part_index, start_offset: 0, size: 1 << 30 },
        &LogicalDrive {
            name: String::from(mount),
            size: 1 << 30,
            free_space: 1 << 29,
            compressed: false,
            file_system: fs,
        },
    )
    .unwrap()
}

fn file(path: &str, size: u64) -> FileInfo {
    FileInfo { path: String::from(path), size }
}

fn disk(efi: bool) -> DiskInfo {
    DiskInfo {
        drive_dev: String::from("/dev/sda"),
        drive_size: 1 << 35,
        boot_path: path_info("/boot", "/boot", 0, FileSystem::VFat),
        root_path: path_info("/", "/", 1, FileSystem::Ext4),
        work_path: path_info("/home/user/migrate", "/", 1, FileSystem::Ext4),
        efi_path: if efi { Some(path_info("/boot/efi", "/boot/efi", 2, FileSystem::VFat)) } else { None },
    }
}

fn complete(efi: bool) -> MigrateInfoBuilder {
    let mut b = MigrateInfoBuilder::default();
    b.os_name = Some(String::from("Ubuntu 18.04"));
    b.os_arch = Some(OSArch::AMD64);
    b.disk_info = Some(disk(efi));
    b.os_image_info = Some(file("/home/user/migrate/balena.img.gz", 300));
    b.os_config_info = Some(file("/home/user/migrate/config.json", 2));
    b.kernel_info = Some(file("/home/user/migrate/balena.zImage", 8));
    b.initrd_info = Some(file("/home/user/migrate/balena.initramfs.cpio.gz", 20));
    b.device_slug = Some(String::from("intel-nuc"));
    b
}

#[test]
fn default_builder_holds_nothing() {
    let b = MigrateInfoBuilder::default();
    assert_eq!(b.os_name, None);
    assert_eq!(b.os_arch, None);
    assert_eq!(b.efi_boot, None);
    assert_eq!(b.secure_boot, None);
    assert_eq!(b.disk_info, None);
    assert_eq!(b.os_image_info, None);
    assert!(b.nwmgr_files.is_empty());
    assert_eq!(b.os_config_info, None);
    assert_eq!(b.kernel_info, None);
    assert_eq!(b.initrd_info, None);
    assert_eq!(b.device_slug, None);
    assert!(b.boot_cfg_bckup.is_empty());
    assert!(b.wifis.is_empty());
    assert_eq!(b.finish().unwrap_err().kind(), MigErrorKind::InvParam);
}

#[test]
fn finish_needs_every_required_fact() {
    assert!(complete(false).finish().is_ok());
    let mut b = complete(false);
    b.os_name = None;
    b.efi_boot = None;
    assert!(b.finish().is_ok());
    let strip: Vec<fn(&mut MigrateInfoBuilder)> = vec![
        |b| b.os_arch = None,
        |b| b.disk_info = None,
        |b| b.os_image_info = None,
        |b| b.os_config_info = None,
        |b| b.kernel_info = None,
        |b| b.initrd_info = None,
        |b| b.device_slug = None,
    ];
    for remove in strip {
        let mut b = complete(false);
        remove(&mut b);
        assert_eq!(b.finish().unwrap_err().kind(), MigErrorKind::InvParam);
    }
}

#[test]
fn finish_keeps_the_facts() {
    let mut b = complete(true);
    b.efi_boot = Some(true);
    b.secure_boot = Some(false);
    b.nwmgr_files.push(file("/home/user/migrate/wired", 1));
    b.wifis.push(WifiConfig { ssid: String::from("home"), psk: Some(String::from("secret")) });
    b.boot_cfg_bckup.push((String::from("/boot/a"), String::from("/boot/a.bak")));
    let info = b.finish().unwrap();
    assert_eq!(info.os_name.as_deref(), Some("Ubuntu 18.04"));
    assert_eq!(info.secure_boot, Some(false));
    assert_eq!(info.nwmgr_files, vec![file("/home/user/migrate/wired", 1)]);
    assert_eq!(info.wifis[0].clone(), WifiConfig { ssid: String::from("home"), psk: Some(String::from("secret")) });
    assert_eq!(info.boot_cfg_bckup.len(), 1);
    assert_eq!(info.os_image_info.clone(), file("/home/user/migrate/balena.img.gz", 300));
}

#[test]
fn getters_give_the_facts() {
    let mut b = complete(true);
    b.efi_boot = Some(true);
    let info = b.finish().unwrap();
    assert_eq!(info.get_initrd_path(), "/home/user/migrate/balena.initramfs.cpio.gz");
    assert_eq!(info.get_kernel_path(), "/home/user/migrate/balena.zImage");
    assert_eq!(info.get_drive_size(), 1 << 35);
    assert_eq!(*info.get_os_arch(), OSArch::AMD64);
    assert_eq!(info.get_drive_device(), "/dev/sda");
    assert!(info.is_efi_boot());
    assert_eq!(info.get_efi_device(), Some("/boot/efi"));
    assert_eq!(info.get_efi_fstype(), Some("vfat"));
    assert_eq!(info.get_work_path(), "/home/user/migrate");
    assert_eq!(info.get_balena_image(), "/home/user/migrate/balena.img.gz");
    assert_eq!(info.get_balena_config(), "/home/user/migrate/config.json");
    assert_eq!(info.get_device_slug(), "intel-nuc");
    assert_eq!(info.get_flash_device(), "/dev/sda");
    assert_eq!(info.get_boot_path(), "/boot");
    assert_eq!(info.get_boot_device(), "/dev/sda1");
    assert_eq!(info.get_boot_fstype(), "vfat");
    assert_eq!(info.get_root_device(), "/dev/sda2");
}

#[test]
fn efi_facts_may_be_absent() {
    let info = complete(false).finish().unwrap();
    assert!(!info.is_efi_boot());
    assert_eq!(info.get_efi_device(), None);
    assert_eq!(info.get_efi_fstype(), None);
    let mut b = complete(false);
    b.efi_boot = Some(false);
    assert!(!b.finish().unwrap().is_efi_boot());
}

#[test]
fn errors_carry_kind_and_remark() {
    let e = MigError::from_remark(MigErrorKind::NotFound, "no such file");
    assert_eq!(e.kind(), MigErrorKind::NotFound);
    assert_eq!(e.remark(), "no such file");
    assert_eq!(e.clone(), e);
    let e = MigError::from(MigErrorKind::NotImpl);
    assert_eq!(e.kind(), MigErrorKind::NotImpl);
    assert_eq!(e.remark(), "");
    let e = MigError::displayed();
    assert_eq!(e.kind(), MigErrorKind::Displayed);
    assert_eq!(e.remark(), "");
}
