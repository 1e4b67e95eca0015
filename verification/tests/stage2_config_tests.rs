use migrator::defs::{BootType, FailMode, LogLevel, UEnvStrategy};
use migrator::error::MigErrorKind;
use migrator::framing::{join_frames, split_frames};
use migrator::migrate_info::WifiConfig;
use migrator::stage2_config::{MountSpec, Stage2Config, Stage2ConfigBuilder, BOOT_MOUNT_DIR, STAGE2_CFG_FILE};
use migrator::stage2_text::{decimal_string, SCHEMA_TAG, SCHEMA_VERSION};

fn s(text: &str) -> String {
    String::from(text)
}

fn small() -> Stage2Config {
    Stage2Config {
        flash_device: s("/dev/mmcblk0"),
        drive_size: 31914983424,
        image_path: s("/mnt/boot/balena.img.gz"),
        config_path: s("/mnt/boot/config.json"),
        nwmgr_files: vec![],
        wifis: vec![],
        fail_mode: FailMode::Reboot,
        log_device: None,
        log_level: LogLevel::Info,
        boot_backups: vec![],
        boot_device: s("/dev/mmcblk0p1"),
        boot_fstype: s("vfat"),
        boot_uuid: None,
        kernel_cmdline: s("rootwait"),
        boot_type: BootType::Raspi,
        mounts: vec![],
    }
}

fn rich() -> Stage2Config {
    Stage2Config {
        flash_device: s("/dev/sda"),
        drive_size: u64::MAX,
        image_path: s("/mnt/boot/balena image\n.gz"),
        config_path: s("/mnt/root/home/ü/config.json"),
        nwmgr_files: vec![s("/mnt/boot/system-connection-0"), s("/mnt/boot/system-connection-1")],
        wifis: vec![
            WifiConfig { ssid: s("home"), psk: Some(s("secret: 1\n2")) },
            WifiConfig { ssid: s("open"), psk: None },
            WifiConfig { ssid: s(""), psk: Some(s("")) },
        ],
        fail_mode: FailMode::RescueShell,
        log_device: Some(s("/dev/sdb1")),
        log_level: LogLevel::Trace,
        boot_backups: vec![
            (s("/mnt/boot/config.txt"), s("/mnt/boot/config.txt.bak")),
            (s("/mnt/root/etc/grub.d/43_balena-migrate"), s("/mnt/root/etc/grub.d/43_balena-migrate.bak")),
        ],
        boot_device: s("/dev/sda1"),
        boot_fstype: s("ext4"),
        boot_uuid: Some(s("e907ceea-7513-4f34-a1d1-fee089d1dd4b")),
        kernel_cmdline: s("console=tty1 root=/dev/ram0"),
        boot_type: BootType::UBoot {
            mmc_index: 255,
            uenv_strategy: UEnvStrategy::UName(s("4.14.53-ti-r62")),
            bootmgr_subpath: s("uboot"),
        },
        mounts: vec![MountSpec { device: s("/dev/sda2"), fstype: s("ext4"), mountpoint: s("/mnt/root") }],
    }
}

#[test]
fn well_known_places() {
    assert_eq!(BOOT_MOUNT_DIR, "/mnt/boot");
    assert_eq!(STAGE2_CFG_FILE, "balena-stage2.cfg");
    assert_eq!(SCHEMA_TAG, "balena-migrate-stage2");
    assert_eq!(SCHEMA_VERSION, 1);
    assert_eq!(decimal_string(0), "0");
    assert_eq!(decimal_string(4096), "4096");
}

#[test]
fn serialize_writes_one_frame_for_each_piece() {
    let text = small().serialize();
    let expected = "21:balena-migrate-stage2\n1:1\n12:/dev/mmcblk0\n11:31914983424\n\
23:/mnt/boot/balena.img.gz\n21:/mnt/boot/config.json\n6:reboot\n1:0\n0:\n4:info\n\
14:/dev/mmcblk0p1\n4:vfat\n1:0\n0:\n8:rootwait\n5:raspi\n1:0\n6:manual\n0:\n0:\n\
1:0\n1:0\n1:0\n1:0\n";
    assert_eq!(text, expected);
}

#[test]
fn serialize_is_stable() {
    assert_eq!(rich().serialize(), rich().serialize());
    assert_eq!(small().serialize(), small().serialize());
}

#[test]
fn parse_gives_back_what_serialize_wrote() {
    for record in [small(), rich()] {
        let text = record.serialize();
        assert_eq!(Stage2Config::parse(&text).unwrap(), record);
    }
}

#[test]
fn every_mode_level_and_boot_type_round_trips() {
    let boot_types = vec![
        BootType::UBoot { mmc_index: 0, uenv_strategy: UEnvStrategy::Manual, bootmgr_subpath: s("") },
        BootType::UBoot { mmc_index: 1, uenv_strategy: UEnvStrategy::UName(s("")), bootmgr_subpath: s("x/y") },
        BootType::Grub,
        BootType::Efi,
        BootType::MSWEfi,
        BootType::Raspi,
        BootType::Raspi64,
        BootType::MSWBootMgr,
    ];
    for boot_type in boot_types {
        for fail_mode in [FailMode::Reboot, FailMode::RescueShell, FailMode::Poweroff] {
            for log_level in [LogLevel::Error, LogLevel::Warn, LogLevel::Info, LogLevel::Debug, LogLevel::Trace] {
                let mut record = small();
                record.boot_type = boot_type.clone();
                record.fail_mode = fail_mode;
                record.log_level = log_level;
                assert_eq!(Stage2Config::parse(&record.serialize()).unwrap(), record);
            }
        }
    }
}

#[test]
fn pieces_round_trip() {
    let pieces = rich().encode_pieces();
    assert_eq!(pieces.len(), 20 + 1 + 2 + 1 + 9 + 1 + 4 + 1 + 3);
    assert_eq!(pieces[0], "balena-migrate-stage2");
    assert_eq!(pieces[6], "rescue-shell");
    assert_eq!(pieces[9], "trace");
    assert_eq!(pieces[15], "uboot");
    assert_eq!(pieces[16], "255");
    assert_eq!(pieces[17], "uname");
    assert_eq!(Stage2Config::decode_pieces(&pieces).unwrap(), rich());
}

fn with_piece(index: usize, value: &str) -> String {
    let mut pieces = split_frames(&small().serialize()).unwrap();
    pieces[index] = s(value);
    join_frames(&pieces)
}

#[test]
fn unknown_schema_version_is_unsupported() {
    let err = Stage2Config::parse(&with_piece(1, "2")).unwrap_err();
    assert_eq!(err.kind(), MigErrorKind::Unsupported);
    let err = Stage2Config::parse(&with_piece(1, "0")).unwrap_err();
    assert_eq!(err.kind(), MigErrorKind::Unsupported);
    let err = Stage2Config::parse("21:balena-migrate-stage2\n2:17\n").unwrap_err();
    assert_eq!(err.kind(), MigErrorKind::Unsupported);
}

#[test]
fn text_that_is_no_record_is_rejected() {
    for text in ["", "garbage", "3:abc\n", "21:balena-migrate-stage2\n", "21:balena-migrate-stage2\n1:x\n", "21:balena-migrate-stage2\n1:1\n"] {
        assert_eq!(Stage2Config::parse(text).unwrap_err().kind(), MigErrorKind::InvParam);
    }
    let bad = [
        (0, "balena-migrate-stage3"),
        (1, "one"),
        (3, "-1"),
        (3, "18446744073709551616"),
        (6, "explode"),
        (7, "2"),
        (9, "verbose"),
        (12, ""),
        (15, "lilo"),
        (20, "1"),
        (23, "x"),
    ];
    for (index, value) in bad {
        assert_eq!(Stage2Config::parse(&with_piece(index, value)).unwrap_err().kind(), MigErrorKind::InvParam);
    }
    let mut text = small().serialize();
    text.push_str("1:x\n");
    assert_eq!(Stage2Config::parse(&text).unwrap_err().kind(), MigErrorKind::InvParam);
    let text = small().serialize();
    assert_eq!(Stage2Config::parse(&text[..text.len() - 1]).unwrap_err().kind(), MigErrorKind::InvParam);
}

#[test]
fn uboot_pieces_are_checked() {
    let mut record = small();
    record.boot_type = BootType::UBoot { mmc_index: 1, uenv_strategy: UEnvStrategy::Manual, bootmgr_subpath: s("") };
    let mut pieces = record.encode_pieces();
    pieces[16] = s("256");
    assert_eq!(Stage2Config::decode_pieces(&pieces).unwrap_err().kind(), MigErrorKind::InvParam);
    pieces[16] = s("7");
    pieces[17] = s("auto");
    assert_eq!(Stage2Config::decode_pieces(&pieces).unwrap_err().kind(), MigErrorKind::InvParam);
    pieces[17] = s("uname");
    pieces[18] = s("5.4");
    let parsed = Stage2Config::decode_pieces(&pieces).unwrap();
    assert_eq!(
        parsed.boot_type,
        BootType::UBoot { mmc_index: 7, uenv_strategy: UEnvStrategy::UName(s("5.4")), bootmgr_subpath: s("") }
    );
}

#[test]
fn reachability_follows_the_mounts() {
    let record = rich();
    assert!(record.can_reach("/mnt/boot/x"));
    assert!(record.can_reach("/mnt/boot"));
    assert!(record.can_reach("/mnt/root/etc"));
    assert!(!record.can_reach("/mnt/bootx"));
    assert!(!record.can_reach("/home/user"));
    assert!(record.is_reachable());
    assert!(!small().can_reach("/mnt/root/etc"));
    assert!(small().is_reachable());
    let mut record = small();
    record.config_path = s("/home/user/config.json");
    assert!(!record.is_reachable());
    let mut record = small();
    record.nwmgr_files.push(s("/etc/NetworkManager/x"));
    assert!(!record.is_reachable());
    let mut record = small();
    record.boot_backups.push((s("/mnt/boot/config.txt"), s("/boot/config.txt.bak")));
    assert!(!record.is_reachable());
    let mut record = small();
    record.image_path = s("/mnt/data/image");
    assert!(!record.is_reachable());
    record.mounts.push(MountSpec { device: s("/dev/sda3"), fstype: s("ext4"), mountpoint: s("/mnt/data") });
    assert!(record.is_reachable());
}

fn builder_of(record: Stage2Config) -> Stage2ConfigBuilder {
    let mut b = Stage2ConfigBuilder::default();
    b.flash_device = Some(record.flash_device);
    b.drive_size = Some(record.drive_size);
    b.image_path = Some(record.image_path);
    b.config_path = Some(record.config_path);
    b.nwmgr_files = record.nwmgr_files;
    b.wifis = record.wifis;
    b.fail_mode = Some(record.fail_mode);
    b.log_device = record.log_device;
    b.log_level = Some(record.log_level);
    b.boot_backups = record.boot_backups;
    b.boot_device = Some(record.boot_device);
    b.boot_fstype = Some(record.boot_fstype);
    b.boot_uuid = record.boot_uuid;
    b.kernel_cmdline = Some(record.kernel_cmdline);
    b.boot_type = Some(record.boot_type);
    b.mounts = record.mounts;
    b
}

#[test]
fn build_gives_the_record_of_a_complete_builder() {
    assert_eq!(builder_of(rich()).build().unwrap(), rich());
    assert_eq!(builder_of(small()).build().unwrap(), small());
}

#[test]
fn build_rejects_an_incomplete_builder() {
    assert_eq!(Stage2ConfigBuilder::default().build().unwrap_err().kind(), MigErrorKind::InvParam);
    let strip: Vec<fn(&mut Stage2ConfigBuilder)> = vec![
        |b| b.flash_device = None,
        |b| b.drive_size = None,
        |b| b.image_path = None,
        |b| b.config_path = None,
        |b| b.fail_mode = None,
        |b| b.log_level = None,
        |b| b.boot_device = None,
        |b| b.boot_fstype = None,
        |b| b.kernel_cmdline = None,
        |b| b.boot_type = None,
    ];
    for remove in strip {
        let mut b = builder_of(small());
        remove(&mut b);
        assert_eq!(b.build().unwrap_err().kind(), MigErrorKind::InvParam);
    }
}

#[test]
fn build_rejects_a_file_out_of_reach() {
    let mut b = builder_of(small());
    b.image_path = Some(s("/home/user/balena.img.gz"));
    assert_eq!(b.build().unwrap_err().kind(), MigErrorKind::InvParam);
}
