use migrator::boot_manager::{BootProbe, Config, SetupStep, UndoStep};
use migrator::defs::{BootType, FailMode, LogLevel, OSArch};
use migrator::device_profile::{lookup, DeviceProfile};
use migrator::devices::{DriveType, FileSystem, LogicalDrive, Partition, PhysicalDrive};
use migrator::ensured_commands::{CmdCall, EnsuredCommands};
use migrator::error::MigErrorKind;
use migrator::migrate_info::{DiskInfo, FileInfo, MigrateInfo, MigrateInfoBuilder, WifiConfig};
use migrator::path_info::PathInfo;
use migrator::planner::{created_paths, plan_migration, translate, translate_all};
use migrator::stage1::{cancel, migrate, CopyOp, Stage1Action, Stage1Phase, Stage1Plan, Stage1State};
use migrator::stage2_config::{MountSpec, Stage2Config};

const MIB: u64 = 1024 * 1024;
const GIB: u64 = 1024 * MIB;

fn s(text: &str) -> String {
    String::from(text)
}

fn path_info(path: &str, mount: &str, part_index: u32, free: u64, fs: FileSystem) -> PathInfo {
    PathInfo::from_parts(
        path,
        None,
        &PhysicalDrive { index: 0, drive_type: DriveType::Scsi, size: 32 * GIB, device: s("mmcblk0") },
        &Partition { part_index, start_offset: 0, size: GIB },
        &LogicalDrive { name: s(mount), size: GIB, free_space: free, compressed: false, file_system: fs },
    )
    .unwrap()
}

fn info(arch: OSArch, slug: &str, boot_free: u64) -> MigrateInfo {
    let mut b = MigrateInfoBuilder::default();
    b.os_name = Some(s("Raspbian GNU/Linux 9 (stretch)"));
    b.os_arch = Some(arch);
    b.efi_boot = Some(false);
    b.disk_info = Some(DiskInfo {
        drive_dev: s("/dev/mmcblk0"),
        drive_size: 32 * GIB,
        boot_path: path_info("/boot", "/boot", 0, boot_free, FileSystem::VFat),
        root_path: path_info("/", "/", 1, 20 * GIB, FileSystem::Ext4),
        work_path: path_info("/home/pi/migrate", "/", 1, 20 * GIB, FileSystem::Ext4),
        efi_path: None,
    });
    b.os_image_info = Some(FileInfo { path: s("/home/pi/migrate/balena-cloud.img.gz"), size: 300 * MIB });
    b.os_config_info = Some(FileInfo { path: s("/home/pi/migrate/config.json"), size: 4096 });
    b.kernel_info = Some(FileInfo { path: s("/home/pi/migrate/balena.zImage"), size: 8 * MIB });
    b.initrd_info = Some(FileInfo { path: s("/home/pi/migrate/balena.initramfs.cpio.gz"), size: 20 * MIB });
    b.device_slug = Some(s(slug));
    b.finish().unwrap()
}

fn config() -> Config {
    Config { fail_mode: FailMode::Reboot, log_level: LogLevel::Info, log_device: None, kernel_opts: s("console=tty1"), staging_slack: 10 * MIB }
}

fn probe(arch: OSArch, existing: &[&str]) -> BootProbe {
    BootProbe { boot_writable: true, kernel_arch: arch, existing_files: existing.iter().map(|p| s(p)).collect() }
}

fn raspi3() -> DeviceProfile {
    lookup(OSArch::ARMHF, Some("Raspberry Pi 3 Model B Rev 1.2"), false).unwrap()
}

fn pc() -> DeviceProfile {
    lookup(OSArch::AMD64, None, false).unwrap()
}

fn no_cmds() -> EnsuredCommands {
    EnsuredCommands::new(&[], &[]).unwrap()
}

fn grub_cmds() -> EnsuredCommands {
    EnsuredCommands::new(
        &["update-grub", "grub-reboot"],
        &[Some(s("/usr/sbin/update-grub")), Some(s("/usr/sbin/grub-reboot"))],
    )
    .unwrap()
}

fn raspi_plan() -> Stage1Plan {
    plan_migration(
        &info(OSArch::ARMHF, "raspberrypi3", 512 * MIB),
        &config(),
        &probe(OSArch::ARMHF, &["/boot/config.txt", "/boot/cmdline.txt"]),
        &no_cmds(),
        &raspi3(),
    )
    .unwrap()
}

fn grub_plan() -> Stage1Plan {
    plan_migration(
        &info(OSArch::AMD64, "intel-nuc", 512 * MIB),
        &config(),
        &probe(OSArch::AMD64, &["/etc/grub.d/43_balena-migrate"]),
        &grub_cmds(),
        &pc(),
    )
    .unwrap()
}

fn copy(from: &str, to: &str) -> CopyOp {
    CopyOp { from: s(from), to: s(to) }
}

#[test]
fn raspberry_pi_3_plan_stages_files_and_changes_two_boot_files() {
    let plan = raspi_plan();
    assert_eq!(
        plan.copies,
        vec![
            copy("/home/pi/migrate/balena.zImage", "/boot/balena.zImage"),
            copy("/home/pi/migrate/balena.initramfs.cpio.gz", "/boot/balena.initramfs.cpio.gz"),
            copy("/home/pi/migrate/balena-cloud.img.gz", "/boot/balena.img.gz"),
            copy("/home/pi/migrate/config.json", "/boot/config.json"),
        ]
    );
    assert_eq!(plan.descriptor_path, "/boot/balena-stage2.cfg");
    let backups = plan.setup.iter().filter(|step| matches!(step, SetupStep::Backup { .. })).count();
    assert_eq!(backups, 2);
    assert_eq!(plan.setup.len(), 4);
    assert_eq!(
        plan.setup[3],
        SetupStep::Write { path: s("/boot/cmdline.txt"), text: s("console=tty1\n"), backup: Some(s("/boot/cmdline.txt.bak")) }
    );
    let record = Stage2Config::parse(&plan.descriptor_text).unwrap();
    assert_eq!(
        record,
        Stage2Config {
            flash_device: s("/dev/mmcblk0"),
            drive_size: 32 * GIB,
            image_path: s("/mnt/boot/balena.img.gz"),
            config_path: s("/mnt/boot/config.json"),
            nwmgr_files: vec![],
            wifis: vec![],
            fail_mode: FailMode::Reboot,
            log_device: None,
            log_level: LogLevel::Info,
            boot_backups: vec![
                (s("/mnt/boot/config.txt"), s("/mnt/boot/config.txt.bak")),
                (s("/mnt/boot/cmdline.txt"), s("/mnt/boot/cmdline.txt.bak")),
            ],
            boot_device: s("/dev/sda1"),
            boot_fstype: s("vfat"),
            boot_uuid: None,
            kernel_cmdline: s("console=tty1"),
            boot_type: BootType::Raspi,
            mounts: vec![],
        }
    );
    assert!(record.is_reachable());
}

#[test]
fn plan_carries_profiles_networks_and_earlier_backups() {
    let mut i = info(OSArch::ARMHF, "raspberrypi3", 512 * MIB);
    i.nwmgr_files.push(FileInfo { path: s("/home/pi/migrate/wired"), size: 100 });
    i.nwmgr_files.push(FileInfo { path: s("/home/pi/migrate/wireless"), size: 100 });
    i.wifis.push(WifiConfig { ssid: s("home"), psk: Some(s("secret")) });
    i.boot_cfg_bckup.push((s("/etc/fstab"), s("/etc/fstab.bak")));
    let mut c = config();
    c.fail_mode = FailMode::RescueShell;
    c.log_level = LogLevel::Debug;
    c.log_device = Some(s("/dev/sda3"));
    let plan = plan_migration(&i, &c, &probe(OSArch::ARMHF, &["/boot/cmdline.txt"]), &no_cmds(), &raspi3()).unwrap();
    assert_eq!(plan.copies.len(), 6);
    assert_eq!(plan.copies[4], copy("/home/pi/migrate/wired", "/boot/system-connection-0"));
    assert_eq!(plan.copies[5], copy("/home/pi/migrate/wireless", "/boot/system-connection-1"));
    let record = Stage2Config::parse(&plan.descriptor_text).unwrap();
    assert_eq!(record.nwmgr_files, vec![s("/mnt/boot/system-connection-0"), s("/mnt/boot/system-connection-1")]);
    assert_eq!(record.wifis, vec![WifiConfig { ssid: s("home"), psk: Some(s("secret")) }]);
    assert_eq!(
        record.boot_backups,
        vec![
            (s("/mnt/root/etc/fstab"), s("/mnt/root/etc/fstab.bak")),
            (s("/mnt/boot/cmdline.txt"), s("/mnt/boot/cmdline.txt.bak")),
        ]
    );
    assert_eq!(record.mounts, vec![MountSpec { device: s("/dev/sda2"), fstype: s("ext4"), mountpoint: s("/mnt/root") }]);
    assert_eq!(record.fail_mode, FailMode::RescueShell);
    assert_eq!(record.log_level, LogLevel::Debug);
    assert_eq!(record.log_device, Some(s("/dev/sda3")));
    assert!(record.is_reachable());
}

#[test]
fn grub_plan_reaches_its_entry_through_the_root_partition() {
    let plan = grub_plan();
    assert_eq!(plan.setup.len(), 4);
    assert_eq!(
        plan.setup[0],
        SetupStep::Backup { path: s("/etc/grub.d/43_balena-migrate"), to: s("/etc/grub.d/43_balena-migrate.bak") }
    );
    assert_eq!(
        plan.setup[3],
        SetupStep::Run { call: CmdCall { program: s("/usr/sbin/grub-reboot"), args: vec![s("balena-migrate")], trim_stdout: false } }
    );
    let record = Stage2Config::parse(&plan.descriptor_text).unwrap();
    assert_eq!(record.boot_type, BootType::Grub);
    assert_eq!(
        record.boot_backups,
        vec![(s("/mnt/root/etc/grub.d/43_balena-migrate"), s("/mnt/root/etc/grub.d/43_balena-migrate.bak"))]
    );
    assert_eq!(record.mounts.len(), 1);
    assert!(record.is_reachable());
}

#[test]
fn insufficient_boot_space_fails_the_plan() {
    let err = plan_migration(
        &info(OSArch::ARMHF, "raspberrypi3", 50 * MIB),
        &config(),
        &probe(OSArch::ARMHF, &["/boot/config.txt", "/boot/cmdline.txt"]),
        &no_cmds(),
        &raspi3(),
    )
    .unwrap_err();
    assert_eq!(err.kind(), MigErrorKind::InsufficientSpace);
}

#[test]
fn missing_grub_tool_fails_the_plan() {
    let err = plan_migration(&info(OSArch::AMD64, "intel-nuc", 512 * MIB), &config(), &probe(OSArch::AMD64, &[]), &no_cmds(), &pc())
        .unwrap_err();
    assert_eq!(err.kind(), MigErrorKind::ToolMissing);
    assert_eq!(err.remark(), "cannot find required command update-grub");
}

#[test]
fn missing_grub_reboot_is_named_too() {
    let only_update = EnsuredCommands::new(&["update-grub"], &[Some(s("/usr/sbin/update-grub"))]).unwrap();
    let err = plan_migration(&info(OSArch::AMD64, "intel-nuc", 512 * MIB), &config(), &probe(OSArch::AMD64, &[]), &only_update, &pc())
        .unwrap_err();
    assert_eq!(err.kind(), MigErrorKind::ToolMissing);
    assert_eq!(err.remark(), "cannot find required command grub-reboot");
}

#[test]
fn plan_refuses_to_write_over_a_file_that_exists() {
    let i = info(OSArch::ARMHF, "raspberrypi3", 512 * MIB);
    assert_eq!(
        created_paths(&i),
        vec![
            s("/boot/balena.zImage"),
            s("/boot/balena.initramfs.cpio.gz"),
            s("/boot/balena.img.gz"),
            s("/boot/config.json"),
            s("/boot/balena-stage2.cfg"),
        ]
    );
    for taken in created_paths(&i) {
        let p = probe(OSArch::ARMHF, &["/boot/config.txt", &taken]);
        assert_eq!(plan_migration(&i, &config(), &p, &no_cmds(), &raspi3()).unwrap_err().kind(), MigErrorKind::InvParam);
    }
    let mut with_profiles = info(OSArch::ARMHF, "raspberrypi3", 512 * MIB);
    with_profiles.nwmgr_files.push(FileInfo { path: s("/home/pi/migrate/wired"), size: 100 });
    assert_eq!(created_paths(&with_profiles)[4], "/boot/system-connection-0");
    let p = probe(OSArch::ARMHF, &["/boot/system-connection-0"]);
    assert_eq!(plan_migration(&with_profiles, &config(), &p, &no_cmds(), &raspi3()).unwrap_err().kind(), MigErrorKind::InvParam);
    assert!(plan_migration(&i, &config(), &p, &no_cmds(), &raspi3()).is_ok());
    let space_first = plan_migration(
        &info(OSArch::ARMHF, "raspberrypi3", 50 * MIB),
        &config(),
        &probe(OSArch::ARMHF, &["/boot/balena.zImage"]),
        &no_cmds(),
        &raspi3(),
    );
    assert_eq!(space_first.unwrap_err().kind(), MigErrorKind::InsufficientSpace);
}

#[test]
fn plan_errors_come_in_order() {
    let small_drive = |i: &mut MigrateInfo| i.disk_info.drive_size = 2 * GIB;
    let mut i = info(OSArch::ARMHF, "raspberrypi3", 50 * MIB);
    small_drive(&mut i);
    let p = probe(OSArch::ARMHF, &[]);
    assert_eq!(plan_migration(&i, &config(), &p, &no_cmds(), &raspi3()).unwrap_err().kind(), MigErrorKind::InsufficientSpace);
    let mut i = info(OSArch::ARMHF, "raspberrypi3", 512 * MIB);
    i.disk_info.drive_dev = s("/dev/sda2");
    assert_eq!(plan_migration(&i, &config(), &p, &no_cmds(), &raspi3()).unwrap_err().kind(), MigErrorKind::InvParam);
    let i = info(OSArch::ARMHF, "raspberrypi3", 512 * MIB);
    let mut profile = raspi3();
    profile.supported_boot_types.clear();
    assert_eq!(plan_migration(&i, &config(), &p, &no_cmds(), &profile).unwrap_err().kind(), MigErrorKind::Unsupported);
    profile.supported_boot_types.push(BootType::MSWBootMgr);
    assert_eq!(plan_migration(&i, &config(), &p, &no_cmds(), &profile).unwrap_err().kind(), MigErrorKind::NotImpl);
    let efi = lookup(OSArch::AMD64, None, true).unwrap();
    assert_eq!(plan_migration(&i, &config(), &p, &no_cmds(), &efi).unwrap_err().kind(), MigErrorKind::NotImpl);
    let wrong_kernel = probe(OSArch::AMD64, &[]);
    assert_eq!(plan_migration(&i, &config(), &wrong_kernel, &no_cmds(), &raspi3()).unwrap_err().kind(), MigErrorKind::Unsupported);
    let mut locked = probe(OSArch::ARMHF, &[]);
    locked.boot_writable = false;
    assert_eq!(plan_migration(&i, &config(), &locked, &no_cmds(), &raspi3()).unwrap_err().kind(), MigErrorKind::InvParam);
    let mut i = info(OSArch::ARMHF, "raspberrypi3", 512 * MIB);
    i.boot_cfg_bckup.push((s("relative"), s("relative.bak")));
    assert_eq!(plan_migration(&i, &config(), &p, &no_cmds(), &raspi3()).unwrap_err().kind(), MigErrorKind::InvParam);
}

#[test]
fn translate_moves_a_path_below_the_stage_2_mount_points() {
    assert_eq!(translate("/boot/config.txt", "/boot", "/"), Some((s("/mnt/boot/config.txt"), false)));
    assert_eq!(translate("/boot", "/boot", "/"), Some((s("/mnt/boot"), false)));
    assert_eq!(translate("/etc/fstab", "/boot", "/"), Some((s("/mnt/root/etc/fstab"), true)));
    assert_eq!(translate("/", "/boot", "/"), Some((s("/mnt/root"), true)));
    assert_eq!(translate("/bootx/y", "/boot", "/"), Some((s("/mnt/root/bootx/y"), true)));
    assert_eq!(translate("/boot/x", "/", "/"), Some((s("/mnt/boot/boot/x"), false)));
    assert_eq!(translate("relative", "/boot", "/"), None);
    assert_eq!(translate("/boot/x", "", ""), None);
    assert_eq!(
        translate_all(&vec![s("/boot/a"), s("/b")], "/boot", "/"),
        Some((vec![s("/mnt/boot/a"), s("/mnt/root/b")], true))
    );
    assert_eq!(translate_all(&vec![s("/boot/a")], "/boot", "/"), Some((vec![s("/mnt/boot/a")], false)));
    assert_eq!(translate_all(&vec![s("/boot/a"), s("b")], "/boot", "/"), None);
    assert_eq!(translate_all(&Vec::new(), "/boot", "/"), Some((Vec::new(), false)));
}

/// Runs stage 1 on the outcomes, and gives the actions that it asked for.
fn run(plan: Stage1Plan, outcomes: &[bool]) -> (Stage1State, Vec<Stage1Action>) {
    let mut state = Stage1State::new(plan).unwrap();
    let mut actions = Vec::new();
    for ok in outcomes {
        let (next, action) = migrate(state, *ok);
        state = next;
        actions.push(action);
    }
    (state, actions)
}

fn remove(path: &str) -> Stage1Action {
    Stage1Action::Remove { path: s(path) }
}

#[test]
fn happy_path_copies_writes_changes_and_reboots() {
    let plan = raspi_plan();
    let (state, actions) = run(raspi_plan(), &[true; 12]);
    let mut expected: Vec<Stage1Action> = plan.copies.iter().map(|c| Stage1Action::Copy(c.clone())).collect();
    expected.push(Stage1Action::WriteFile { path: s("/boot/balena-stage2.cfg"), text: plan.descriptor_text.clone() });
    expected.push(Stage1Action::Setup(SetupStep::Backup { path: s("/boot/config.txt"), to: s("/boot/config.txt.bak") }));
    expected.push(Stage1Action::Setup(SetupStep::Append {
        path: s("/boot/config.txt"),
        text: s("initramfs balena.initramfs.cpio.gz followkernel\n"),
        backup: Some(s("/boot/config.txt.bak")),
    }));
    expected.push(Stage1Action::Setup(SetupStep::Backup { path: s("/boot/cmdline.txt"), to: s("/boot/cmdline.txt.bak") }));
    expected.push(Stage1Action::Setup(SetupStep::Write {
        path: s("/boot/cmdline.txt"),
        text: s("console=tty1\n"),
        backup: Some(s("/boot/cmdline.txt.bak")),
    }));
    expected.push(Stage1Action::Reboot);
    expected.push(Stage1Action::Exit);
    expected.push(Stage1Action::Exit);
    assert_eq!(actions, expected);
    assert_eq!(state.phase(), Stage1Phase::Armed);
    assert_eq!(state.error(), None);
    assert_eq!(*state.plan(), plan);
}

#[test]
fn failure_while_staging_removes_what_was_created() {
    let (state, actions) = run(raspi_plan(), &[true, true, true, false, true, false, true, true, true]);
    assert_eq!(
        actions[3..],
        [
            remove("/boot/balena.img.gz"),
            remove("/boot/balena.initramfs.cpio.gz"),
            remove("/boot/balena.zImage"),
            Stage1Action::Fail(MigErrorKind::IoError),
            Stage1Action::Fail(MigErrorKind::IoError),
            Stage1Action::Fail(MigErrorKind::IoError),
        ]
    );
    assert_eq!(state.phase(), Stage1Phase::Failed);
    assert_eq!(state.error(), Some(MigErrorKind::IoError));
    assert!(!actions.iter().any(|a| matches!(a, Stage1Action::Setup(_) | Stage1Action::Reboot | Stage1Action::Undo(_))));
}

#[test]
fn failure_of_the_first_copy_removes_its_remains() {
    let (state, actions) = run(raspi_plan(), &[true, false, true]);
    assert_eq!(actions[1..], [remove("/boot/balena.zImage"), Stage1Action::Fail(MigErrorKind::IoError)]);
    assert_eq!(state.phase(), Stage1Phase::Failed);
}

#[test]
fn failure_to_write_the_record_removes_every_staged_file() {
    let (state, actions) = run(raspi_plan(), &[true, true, true, true, true, false, true, true, true, true, true]);
    assert_eq!(
        actions[5..],
        [
            remove("/boot/balena-stage2.cfg"),
            remove("/boot/config.json"),
            remove("/boot/balena.img.gz"),
            remove("/boot/balena.initramfs.cpio.gz"),
            remove("/boot/balena.zImage"),
            Stage1Action::Fail(MigErrorKind::IoError),
        ]
    );
    assert_eq!(state.error(), Some(MigErrorKind::IoError));
    let created = actions.iter().filter(|a| matches!(a, Stage1Action::Copy(_) | Stage1Action::WriteFile { .. })).count();
    let removed = actions.iter().filter(|a| matches!(a, Stage1Action::Remove { .. })).count();
    assert_eq!(created, removed);
}

#[test]
fn commit_failure_restores_every_touched_file_and_does_not_reboot() {
    let mut outcomes = vec![true; 9];
    outcomes.push(false);
    outcomes.extend(vec![true; 7]);
    let (state, actions) = run(grub_plan(), &outcomes);
    assert!(matches!(&actions[8], Stage1Action::Setup(SetupStep::Run { call }) if call.program == "/usr/sbin/grub-reboot"));
    assert_eq!(
        actions[9..],
        [
            Stage1Action::Undo(UndoStep::Restore { from: s("/etc/grub.d/43_balena-migrate.bak"), to: s("/etc/grub.d/43_balena-migrate") }),
            remove("/boot/balena-stage2.cfg"),
            remove("/boot/config.json"),
            remove("/boot/balena.img.gz"),
            remove("/boot/balena.initramfs.cpio.gz"),
            remove("/boot/balena.zImage"),
            Stage1Action::Fail(MigErrorKind::CommitFailed),
            Stage1Action::Fail(MigErrorKind::CommitFailed),
        ]
    );
    assert_eq!(state.phase(), Stage1Phase::Failed);
    assert_eq!(state.error(), Some(MigErrorKind::CommitFailed));
    assert!(!actions.iter().any(|a| *a == Stage1Action::Reboot));
}

#[test]
fn failed_backup_is_told_as_such() {
    let (state, actions) = run(raspi_plan(), &[true, true, true, true, true, true, true, true, false]);
    assert_eq!(
        actions[8],
        Stage1Action::Undo(UndoStep::Restore { from: s("/boot/config.txt.bak"), to: s("/boot/config.txt") })
    );
    assert_eq!(state.error(), Some(MigErrorKind::BackupFailed));
    let (state, actions) = run(raspi_plan(), &[true, true, true, true, true, true, false]);
    assert_eq!(actions[6], remove("/boot/balena-stage2.cfg"));
    assert_eq!(state.error(), Some(MigErrorKind::BackupFailed));
}

#[test]
fn failed_reboot_takes_the_whole_change_back() {
    let mut outcomes = vec![true; 10];
    outcomes.push(false);
    outcomes.extend(vec![false; 8]);
    let (state, actions) = run(raspi_plan(), &outcomes);
    assert_eq!(actions[9], Stage1Action::Reboot);
    assert_eq!(
        actions[10..12],
        [
            Stage1Action::Undo(UndoStep::Restore { from: s("/boot/cmdline.txt.bak"), to: s("/boot/cmdline.txt") }),
            Stage1Action::Undo(UndoStep::Restore { from: s("/boot/config.txt.bak"), to: s("/boot/config.txt") }),
        ]
    );
    assert_eq!(actions[12], remove("/boot/balena-stage2.cfg"));
    assert_eq!(actions[16], remove("/boot/balena.zImage"));
    assert_eq!(actions[17], Stage1Action::Fail(MigErrorKind::CommitFailed));
    assert_eq!(state.error(), Some(MigErrorKind::CommitFailed));
}

#[test]
fn new_stage1_state_is_at_the_start() {
    let state = Stage1State::new(raspi_plan()).unwrap();
    assert_eq!(state.phase(), Stage1Phase::Start);
    assert_eq!(state.error(), None);
    assert_eq!(state.action(), Stage1Action::Exit);
    let empty = Stage1Plan { copies: vec![], descriptor_path: s("/boot/d"), descriptor_text: s("t"), setup: vec![] };
    let (state, actions) = run(empty, &[true, true, true]);
    assert_eq!(
        actions,
        vec![Stage1Action::WriteFile { path: s("/boot/d"), text: s("t") }, Stage1Action::Reboot, Stage1Action::Exit]
    );
    assert_eq!(state.phase(), Stage1Phase::Armed);
}

#[test]
fn cancellation_before_the_commit_removes_what_was_created() {
    let (state, _) = run(raspi_plan(), &[true, true]);
    assert_eq!(state.phase(), Stage1Phase::Staging(1));
    let (mut state, action) = cancel(state, true);
    let mut actions = vec![action];
    for _ in 0..3 {
        let (next, action) = migrate(state, true);
        state = next;
        actions.push(action);
    }
    assert_eq!(
        actions,
        vec![remove("/boot/balena.initramfs.cpio.gz"), remove("/boot/balena.zImage"), Stage1Action::Exit, Stage1Action::Exit]
    );
    assert_eq!(state.phase(), Stage1Phase::Failed);
    assert_eq!(state.error(), None);
    let (state, action) = cancel(Stage1State::new(raspi_plan()).unwrap(), true);
    assert_eq!(action, Stage1Action::Exit);
    assert_eq!(state.phase(), Stage1Phase::Failed);
    let (state, _) = run(raspi_plan(), &[true; 5]);
    assert_eq!(state.phase(), Stage1Phase::WriteDescriptor);
    let (_, action) = cancel(state, false);
    assert_eq!(action, remove("/boot/balena-stage2.cfg"));
}

#[test]
fn cancellation_after_the_commit_is_ignored() {
    let (state, _) = run(raspi_plan(), &[true; 6]);
    assert_eq!(state.phase(), Stage1Phase::Setup(0));
    let (state, action) = cancel(state, true);
    assert_eq!(state.phase(), Stage1Phase::Setup(1));
    assert!(matches!(action, Stage1Action::Setup(SetupStep::Append { .. })));
    let (state, action) = cancel(state, false);
    assert_eq!(
        action,
        Stage1Action::Undo(UndoStep::Restore { from: s("/boot/config.txt.bak"), to: s("/boot/config.txt") })
    );
    assert_eq!(state.error(), Some(MigErrorKind::CommitFailed));
}
