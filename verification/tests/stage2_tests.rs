use migrator::boot_manager::UndoStep;
use migrator::defs::{BootType, FailMode, LogLevel};
use migrator::migrate_info::WifiConfig;
use migrator::stage2::{
    config_partition_of, stage2, Exit, Phase, Stage2Action, Stage2Event, Stage2State, SIZE_TOLERANCE, SYNC_INTERVAL,
};
use migrator::stage2_config::{MountSpec, Stage2Config};

const GIB: u64 = 1024 * 1024 * 1024;

fn s(text: &str) -> String {
    String::from(text)
}

fn record() -> Stage2Config {
    Stage2Config {
        flash_device: s("/dev/mmcblk0"),
        drive_size: 32 * GIB,
        image_path: s("/mnt/boot/balena.img.gz"),
        config_path: s("/mnt/boot/config.json"),
        nwmgr_files: vec![s("/mnt/boot/system-connection-0")],
        wifis: vec![WifiConfig { ssid: s("home"), psk: Some(s("secret")) }],
        fail_mode: FailMode::Reboot,
        log_device: None,
        log_level: LogLevel::Info,
        boot_backups: vec![
            (s("/mnt/boot/config.txt"), s("/mnt/boot/config.txt.bak")),
            (s("/mnt/boot/cmdline.txt"), s("/mnt/boot/cmdline.txt.bak")),
        ],
        boot_device: s("/dev/mmcblk0p1"),
        boot_fstype: s("vfat"),
        boot_uuid: None,
        kernel_cmdline: s("console=tty1"),
        boot_type: BootType::Raspi,
        mounts: vec![],
    }
}

fn with_root(mut r: Stage2Config) -> Stage2Config {
    r.mounts.push(MountSpec { device: s("/dev/sda2"), fstype: s("ext4"), mountpoint: s("/mnt/root") });
    r
}

/// Runs stage 2 on the events, and gives the actions that it asked for.
fn run(events: Vec<Stage2Event>) -> (Stage2State, Vec<Stage2Action>) {
    let mut state = Stage2State::new();
    let mut actions = Vec::new();
    for event in events {
        let (next, action) = stage2(state, event);
        state = next;
        actions.push(action);
    }
    (state, actions)
}

/// Goes on with `Done` events until stage 2 is over.
fn finish(mut state: Stage2State) -> Vec<Stage2Action> {
    let mut actions = Vec::new();
    loop {
        let (next, action) = stage2(state, Stage2Event::Done);
        state = next;
        let over = action == Stage2Action::Exit;
        actions.push(action);
        if over {
            assert!(state.is_finished());
            return actions;
        }
        assert!(actions.len() < 100);
    }
}

/// Goes on with `Done` events up to the last action of an exit.
fn up_to_restart(mut state: Stage2State) -> (Stage2State, Vec<Stage2Action>) {
    let mut actions = Vec::new();
    loop {
        let (next, action) = stage2(state, Stage2Event::Done);
        state = next;
        let last = matches!(action, Stage2Action::Reboot | Stage2Action::RescueShell | Stage2Action::Poweroff);
        actions.push(action);
        if last {
            return (state, actions);
        }
        assert!(actions.len() < 100);
    }
}

fn up_to_writing(r: &Stage2Config) -> Vec<Stage2Event> {
    let mut events = vec![Stage2Event::Done, Stage2Event::Done, Stage2Event::Descriptor(r.serialize())];
    for _ in &r.mounts {
        events.push(Stage2Event::Done);
    }
    events.push(Stage2Event::Target { whole_disk: true, size: r.drive_size });
    events.push(Stage2Event::Done);
    events
}

#[test]
fn new_state_is_at_the_start() {
    let state = Stage2State::new();
    assert_eq!(state.phase(), Phase::Start);
    assert_eq!(state.mounted(), 0);
    assert_eq!(*state.config(), None);
    assert!(!state.is_finished());
    assert_eq!(state.action(), Stage2Action::Exit);
    assert_eq!(SYNC_INTERVAL, 64 * 1024 * 1024);
    assert_eq!(SIZE_TOLERANCE, 1024 * 1024);
}

#[test]
fn happy_path_flashes_deposits_and_reboots() {
    let r = record();
    let mut events = up_to_writing(&r);
    events.push(Stage2Event::Chunk { bytes: 4 * 1024 * 1024 });
    events.push(Stage2Event::Chunk { bytes: 4 * 1024 * 1024 });
    events.push(Stage2Event::EndOfImage);
    let (state, actions) = run(events);
    assert_eq!(
        actions,
        vec![
            Stage2Action::MountBoot,
            Stage2Action::ReadDescriptor,
            Stage2Action::ProbeTarget { device: s("/dev/mmcblk0") },
            Stage2Action::OpenImage { path: s("/mnt/boot/balena.img.gz") },
            Stage2Action::WriteChunk { device: s("/dev/mmcblk0") },
            Stage2Action::WriteChunk { device: s("/dev/mmcblk0") },
            Stage2Action::WriteChunk { device: s("/dev/mmcblk0") },
            Stage2Action::Sync,
        ]
    );
    assert_eq!(state.phase(), Phase::FinalSync);
    assert_eq!(state.mounted(), 1);
    assert_eq!(*state.config(), Some(r));
    assert_eq!(
        up_to_restart(state).1,
        vec![
            Stage2Action::RereadPartitions { device: s("/dev/mmcblk0") },
            Stage2Action::MountConfigPartition { partition: s("/dev/mmcblk0p1") },
            Stage2Action::DepositConfig { path: s("/mnt/boot/config.json") },
            Stage2Action::DepositProfile { path: s("/mnt/boot/system-connection-0") },
            Stage2Action::DepositWifi(WifiConfig { ssid: s("home"), psk: Some(s("secret")) }),
            Stage2Action::Sync,
            Stage2Action::Sync,
            Stage2Action::UnmountConfigPartition,
            Stage2Action::Sync,
            Stage2Action::UnmountBoot,
            Stage2Action::Reboot,
        ]
    );
}

#[test]
fn writes_go_to_the_flash_device_only() {
    let r = with_root(record());
    let mut events = up_to_writing(&r);
    for _ in 0..40 {
        events.push(Stage2Event::Chunk { bytes: 8 * 1024 * 1024 });
        events.push(Stage2Event::Done);
    }
    events.push(Stage2Event::EndOfImage);
    let (state, mut actions) = run(events);
    actions.extend(finish(state));
    let mut writes = 0;
    for action in &actions {
        if let Stage2Action::WriteChunk { device } = action {
            assert_eq!(device, &r.flash_device);
            writes += 1;
        }
    }
    assert!(writes > 0);
}

#[test]
fn writing_is_synced_every_interval() {
    let r = record();
    let mut events = up_to_writing(&r);
    events.push(Stage2Event::Chunk { bytes: SYNC_INTERVAL - 1 });
    events.push(Stage2Event::Chunk { bytes: 1 });
    events.push(Stage2Event::Done);
    events.push(Stage2Event::Chunk { bytes: SYNC_INTERVAL });
    events.push(Stage2Event::Done);
    events.push(Stage2Event::Chunk { bytes: u64::MAX });
    let (state, actions) = run(events);
    let write = || Stage2Action::WriteChunk { device: s("/dev/mmcblk0") };
    let expected = vec![write(), write(), Stage2Action::Sync, write(), Stage2Action::Sync, write(), Stage2Action::Sync];
    assert_eq!(actions[4..], expected[..]);
    assert_eq!(state.phase(), Phase::WriteSync);
}

#[test]
fn other_partitions_are_mounted_and_unmounted_in_reverse() {
    let mut r = with_root(record());
    r.mounts.push(MountSpec { device: s("/dev/sda3"), fstype: s("ext4"), mountpoint: s("/mnt/data") });
    r.nwmgr_files.clear();
    r.wifis.clear();
    let mut events = up_to_writing(&r);
    events.push(Stage2Event::EndOfImage);
    let (state, actions) = run(events);
    assert_eq!(actions[2], Stage2Action::Mount(r.mounts[0].clone()));
    assert_eq!(actions[3], Stage2Action::Mount(r.mounts[1].clone()));
    assert_eq!(state.mounted(), 3);
    assert_eq!(
        up_to_restart(state).1,
        vec![
            Stage2Action::RereadPartitions { device: s("/dev/mmcblk0") },
            Stage2Action::MountConfigPartition { partition: s("/dev/mmcblk0p1") },
            Stage2Action::DepositConfig { path: s("/mnt/boot/config.json") },
            Stage2Action::Sync,
            Stage2Action::Sync,
            Stage2Action::UnmountConfigPartition,
            Stage2Action::Sync,
            Stage2Action::Unmount { mountpoint: s("/mnt/data") },
            Stage2Action::Sync,
            Stage2Action::Unmount { mountpoint: s("/mnt/root") },
            Stage2Action::Sync,
            Stage2Action::UnmountBoot,
            Stage2Action::Reboot,
        ]
    );
}

fn after_restart(event: Stage2Event) -> Vec<Stage2Action> {
    let r = record();
    let mut events = up_to_writing(&r);
    events.push(Stage2Event::EndOfImage);
    let (state, _) = run(events);
    let (state, actions) = up_to_restart(state);
    assert_eq!(*actions.last().unwrap(), Stage2Action::Reboot);
    assert_eq!(state.phase(), Phase::Act(Exit::Success));
    assert_eq!(state.mounted(), 0);
    let (state, action) = stage2(state, event);
    assert_eq!(state.phase(), Phase::Flush(Exit::Error));
    let mut all = vec![action];
    all.extend(finish(state));
    all
}

#[test]
fn restart_that_comes_back_leads_to_the_error_exit() {
    let expected = vec![
        Stage2Action::FlushLog,
        Stage2Action::Sync,
        Stage2Action::Restore(UndoStep::Restore { from: s("/mnt/boot/cmdline.txt.bak"), to: s("/mnt/boot/cmdline.txt") }),
        Stage2Action::Restore(UndoStep::Restore { from: s("/mnt/boot/config.txt.bak"), to: s("/mnt/boot/config.txt") }),
        Stage2Action::Reboot,
        Stage2Action::Exit,
    ];
    assert_eq!(after_restart(Stage2Event::Done), expected);
    assert_eq!(after_restart(Stage2Event::Failed), expected);
    assert_eq!(after_restart(Stage2Event::EndOfImage), expected);
}

#[test]
fn restart_that_comes_back_follows_the_failure_mode() {
    let mut r = record();
    r.fail_mode = FailMode::Poweroff;
    r.boot_backups.clear();
    let mut events = up_to_writing(&r);
    events.push(Stage2Event::EndOfImage);
    let (state, _) = run(events);
    let (state, _) = up_to_restart(state);
    let (state, action) = stage2(state, Stage2Event::Done);
    assert_eq!(action, Stage2Action::FlushLog);
    assert_eq!(finish(state), vec![Stage2Action::Sync, Stage2Action::Poweroff, Stage2Action::Exit]);
}

#[test]
fn last_action_of_the_error_and_default_exits_ends_stage_2() {
    for event in [Stage2Event::Done, Stage2Event::Failed] {
        let r = record();
        let mut events = up_to_writing(&r);
        events.push(Stage2Event::Failed);
        let (state, _) = run(events);
        let (state, actions) = up_to_restart(state);
        assert_eq!(*actions.last().unwrap(), Stage2Action::Reboot);
        assert_eq!(state.phase(), Phase::Act(Exit::Error));
        let (state, action) = stage2(state, event);
        assert_eq!(action, Stage2Action::Exit);
        assert!(state.is_finished());
    }
    let (state, _) = run(vec![Stage2Event::Done, Stage2Event::Failed]);
    let (state, _) = up_to_restart(state);
    assert_eq!(state.phase(), Phase::Act(Exit::Default));
    let (state, action) = stage2(state, Stage2Event::Failed);
    assert_eq!(action, Stage2Action::Exit);
    assert!(state.is_finished());
}

fn error_exit_actions(fail: Stage2Action) -> Vec<Stage2Action> {
    vec![
        Stage2Action::FlushLog,
        Stage2Action::Sync,
        Stage2Action::Restore(UndoStep::Restore { from: s("/mnt/boot/cmdline.txt.bak"), to: s("/mnt/boot/cmdline.txt") }),
        Stage2Action::Restore(UndoStep::Restore { from: s("/mnt/boot/config.txt.bak"), to: s("/mnt/boot/config.txt") }),
        Stage2Action::Sync,
        Stage2Action::UnmountBoot,
        fail,
        Stage2Action::Exit,
    ]
}

#[test]
fn write_error_restores_the_boot_configuration_and_reboots() {
    let r = record();
    let mut events = up_to_writing(&r);
    events.push(Stage2Event::Chunk { bytes: 1024 });
    events.push(Stage2Event::Failed);
    let (state, actions) = run(events);
    assert_eq!(*actions.last().unwrap(), Stage2Action::FlushLog);
    assert_eq!(state.phase(), Phase::Flush(Exit::Error));
    let mut all = vec![Stage2Action::FlushLog];
    all.extend(finish(state));
    assert_eq!(all, error_exit_actions(Stage2Action::Reboot));
    assert!(!all.iter().any(|a| matches!(a, Stage2Action::WriteChunk { .. })));
}

#[test]
fn error_exit_follows_the_failure_mode() {
    for (mode, last) in [
        (FailMode::Reboot, Stage2Action::Reboot),
        (FailMode::RescueShell, Stage2Action::RescueShell),
        (FailMode::Poweroff, Stage2Action::Poweroff),
    ] {
        let mut r = record();
        r.fail_mode = mode;
        let mut events = up_to_writing(&r);
        events.pop();
        events.push(Stage2Event::Failed);
        let (state, actions) = run(events);
        assert_eq!(*actions.last().unwrap(), Stage2Action::FlushLog);
        let mut all = vec![Stage2Action::FlushLog];
        all.extend(finish(state));
        assert_eq!(all, error_exit_actions(last));
    }
}

#[test]
fn exit_goes_on_when_its_actions_fail() {
    let r = record();
    let mut events = up_to_writing(&r);
    events.push(Stage2Event::Failed);
    for _ in 0..7 {
        events.push(Stage2Event::Failed);
    }
    let (state, actions) = run(events);
    assert!(state.is_finished());
    assert_eq!(actions[5..], error_exit_actions(Stage2Action::Reboot)[..]);
}

#[test]
fn unknown_schema_version_leads_to_the_default_exit() {
    let text = record().serialize().replace("21:balena-migrate-stage2\n1:1\n", "21:balena-migrate-stage2\n1:9\n");
    let (state, actions) = run(vec![Stage2Event::Done, Stage2Event::Done, Stage2Event::Descriptor(text)]);
    assert_eq!(state.phase(), Phase::Flush(Exit::Default));
    assert_eq!(*state.config(), None);
    assert_eq!(actions[2], Stage2Action::FlushLog);
    assert_eq!(
        finish(state),
        vec![
            Stage2Action::Sync,
            Stage2Action::Sync,
            Stage2Action::UnmountBoot,
            Stage2Action::Delay,
            Stage2Action::Reboot,
            Stage2Action::Exit,
        ]
    );
    assert!(!actions.iter().any(|a| matches!(a, Stage2Action::WriteChunk { .. } | Stage2Action::ProbeTarget { .. })));
}

#[test]
fn missing_record_leads_to_the_default_exit() {
    for event in [Stage2Event::Failed, Stage2Event::Descriptor(s("garbage")), Stage2Event::Done, Stage2Event::EndOfImage] {
        let (state, _) = run(vec![Stage2Event::Done, Stage2Event::Done, event]);
        assert_eq!(state.phase(), Phase::Flush(Exit::Default));
    }
    let (state, actions) = run(vec![Stage2Event::Done, Stage2Event::Failed]);
    assert_eq!(state.phase(), Phase::Flush(Exit::Default));
    assert_eq!(state.mounted(), 0);
    assert_eq!(actions[1], Stage2Action::FlushLog);
    assert_eq!(
        finish(state),
        vec![Stage2Action::Sync, Stage2Action::Delay, Stage2Action::Reboot, Stage2Action::Exit]
    );
}

#[test]
fn flash_device_must_be_a_whole_disk_of_the_expected_size() {
    let r = record();
    let probe = |whole_disk: bool, size: u64| {
        let mut events = up_to_writing(&r);
        events.truncate(3);
        events.push(Stage2Event::Target { whole_disk, size });
        run(events).0.phase()
    };
    assert_eq!(probe(true, r.drive_size), Phase::OpenImage);
    assert_eq!(probe(true, r.drive_size + SIZE_TOLERANCE), Phase::OpenImage);
    assert_eq!(probe(true, r.drive_size - SIZE_TOLERANCE), Phase::OpenImage);
    assert_eq!(probe(true, r.drive_size + SIZE_TOLERANCE + 1), Phase::Flush(Exit::Error));
    assert_eq!(probe(true, r.drive_size - SIZE_TOLERANCE - 1), Phase::Flush(Exit::Error));
    assert_eq!(probe(false, r.drive_size), Phase::Flush(Exit::Error));
    assert_eq!(probe(true, 0), Phase::Flush(Exit::Error));
    assert_eq!(probe(true, u64::MAX), Phase::Flush(Exit::Error));
}

#[test]
fn mount_failure_is_fatal() {
    let r = with_root(record());
    let (state, _) = run(vec![Stage2Event::Done, Stage2Event::Done, Stage2Event::Descriptor(r.serialize()), Stage2Event::Failed]);
    assert_eq!(state.phase(), Phase::Flush(Exit::Error));
    assert_eq!(state.mounted(), 1);
}

#[test]
fn failure_after_the_flash_unmounts_the_configuration_partition() {
    let r = record();
    let mut events = up_to_writing(&r);
    events.extend(vec![Stage2Event::EndOfImage, Stage2Event::Done, Stage2Event::Done, Stage2Event::Done, Stage2Event::Failed]);
    let (state, actions) = run(events);
    assert_eq!(*actions.last().unwrap(), Stage2Action::FlushLog);
    assert_eq!(state.mounted(), 2);
    let rest = finish(state);
    assert_eq!(
        rest[3..],
        [
            Stage2Action::Sync,
            Stage2Action::UnmountConfigPartition,
            Stage2Action::Sync,
            Stage2Action::UnmountBoot,
            Stage2Action::Reboot,
            Stage2Action::Exit,
        ]
    );
}

#[test]
fn abort_leads_to_the_default_exit_once() {
    let r = record();
    let mut events = up_to_writing(&r);
    events.push(Stage2Event::Aborted);
    let (state, actions) = run(events);
    assert_eq!(*actions.last().unwrap(), Stage2Action::FlushLog);
    assert_eq!(state.phase(), Phase::Flush(Exit::Default));
    let (state, action) = stage2(state, Stage2Event::Done);
    assert_eq!(action, Stage2Action::Sync);
    let (state, action) = stage2(state, Stage2Event::Aborted);
    assert_eq!(action, Stage2Action::Exit);
    assert!(state.is_finished());
    let (state, action) = stage2(state, Stage2Event::Done);
    assert_eq!(action, Stage2Action::Exit);
    assert!(state.is_finished());
}

#[test]
fn abort_within_the_error_exit_leads_to_the_default_exit() {
    let r = record();
    let mut events = up_to_writing(&r);
    events.push(Stage2Event::Failed);
    events.push(Stage2Event::Done);
    events.push(Stage2Event::Aborted);
    let (state, _) = run(events);
    assert_eq!(state.phase(), Phase::Flush(Exit::Default));
    assert_eq!(
        finish(state),
        vec![
            Stage2Action::Sync,
            Stage2Action::Sync,
            Stage2Action::UnmountBoot,
            Stage2Action::Delay,
            Stage2Action::Reboot,
            Stage2Action::Exit,
        ]
    );
    let (state, action) = stage2(Stage2State::new(), Stage2Event::Aborted);
    assert_eq!(action, Stage2Action::FlushLog);
    assert_eq!(state.phase(), Phase::Flush(Exit::Default));
}

#[test]
fn configuration_partition_is_the_first_of_the_device() {
    assert_eq!(config_partition_of("/dev/mmcblk0"), "/dev/mmcblk0p1");
    assert_eq!(config_partition_of("/dev/sda"), "/dev/sda1");
    assert_eq!(config_partition_of("/dev/nvme0n1"), "/dev/nvme0n1p1");
    assert_eq!(config_partition_of(""), "1");
    let mut r = record();
    r.flash_device = s("/dev/sdb");
    let mut events = up_to_writing(&r);
    events.extend(vec![Stage2Event::EndOfImage, Stage2Event::Done, Stage2Event::Done]);
    let (_, actions) = run(events);
    assert_eq!(*actions.last().unwrap(), Stage2Action::MountConfigPartition { partition: s("/dev/sdb1") });
}
