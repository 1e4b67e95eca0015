//! Stage 2: what runs after the reboot, from the staged initramfs. It
//! mounts what the hand-over record names, writes the image over the
//! flash device, deposits the configuration on the flashed system and
//! restarts the host. Whatever goes wrong ends in one of two exits: the
//! one that follows the record, or, without a record, the default one.
//! A restart that comes back counts as having gone wrong.
//!
//! `stage2` is the step function of all of that: from the state and from
//! what the last action came to, it gives the next state and the next
//! action. The caller performs the action and reports back.

use vstd::prelude::*;
use vstd::string::*;

use crate::boot_manager::{UndoStep, UndoStepView};
use crate::defs::FailMode;
use crate::framing::is_digit;
use crate::migrate_info::{WifiConfig, WifiConfigView};
use crate::stage2_config::{MountSpec, MountSpecView, Stage2Config, Stage2ConfigView};
use crate::stage2_text::parse_spec;
use crate::text::chars_of;

verus! {

/// The number of bytes after which the flash device is synced.
pub const SYNC_INTERVAL: u64 = 67108864;

/// By how many bytes the size of the flash device may differ from the
/// size that the hand-over record expects.
pub const SIZE_TOLERANCE: u64 = 1048576;

/// The way out of stage 2.
#[derive(Clone, Copy, Debug, PartialEq, Eq, Structural)]
pub enum Exit {
    /// The image was written and the configuration deposited.
    Success,
    /// Something failed while the hand-over record was at hand.
    Error,
    /// Something failed without a hand-over record, or the program was
    /// aborted.
    Default,
}

/// Where stage 2 stands. A phase is named after the action that is under
/// way in it.
#[derive(Clone, Copy, Debug, PartialEq, Eq, Structural)]
pub enum Phase {
    /// Nothing was done yet.
    Start,
    /// Mounting the boot partition.
    MountBoot,
    /// Reading the hand-over record.
    ReadDescriptor,
    /// Mounting one of the other partitions that the record names.
    MountExtra(usize),
    /// Examining the flash device.
    ProbeTarget,
    /// Opening the image.
    OpenImage,
    /// Writing a chunk of the image.
    Write,
    /// Syncing in the course of writing.
    WriteSync,
    /// Syncing after the image was written.
    FinalSync,
    /// Reading the new partition table.
    Reread,
    /// Mounting the configuration partition of the flashed system.
    MountConfig,
    /// Depositing the appliance configuration.
    DepositConfig,
    /// Depositing one of the network manager profiles.
    DepositNwmgr(usize),
    /// Depositing one of the wireless networks.
    DepositWifi(usize),
    /// Syncing after the deposits.
    DepositSync,
    /// Flushing the log, at the start of an exit for a failure.
    Flush(Exit),
    /// Syncing, on the way out for a failure.
    ExitSync(Exit),
    /// Restoring one of the changed boot configuration files.
    Restore(usize),
    /// Syncing before the unmount of what was mounted last.
    UnwindSync(Exit),
    /// Unmounting what was mounted last.
    Unmount(Exit),
    /// Waiting, before the restart of the default exit.
    Delay,
    /// The last action of an exit: restart, rescue shell or power off.
    /// Only the restart of the exit for a success has something behind
    /// it, for the case that it comes back: the exit for errors.
    Act(Exit),
    /// Nothing is left to do.
    Finished,
}

/// What the last action came to.
#[derive(Debug, PartialEq, Eq)]
pub enum Stage2Event {
    /// It succeeded.
    Done,
    /// It failed.
    Failed,
    /// The hand-over record was read; this is its text.
    Descriptor(String),
    /// The flash device was examined.
    Target { whole_disk: bool, size: u64 },
    /// A chunk of so many bytes was written.
    Chunk { bytes: u64 },
    /// Nothing of the image was left to write.
    EndOfImage,
    /// The program was aborted in the course of the action.
    Aborted,
}

/// The mathematical content of a `Stage2Event`.
pub enum Stage2EventView {
    Done,
    Failed,
    Descriptor(Seq<char>),
    Target { whole_disk: bool, size: u64 },
    Chunk { bytes: u64 },
    EndOfImage,
    Aborted,
}

impl View for Stage2Event {
    type V = Stage2EventView;

    open spec fn view(&self) -> Stage2EventView {
        match self {
            Stage2Event::Done => Stage2EventView::Done,
            Stage2Event::Failed => Stage2EventView::Failed,
            Stage2Event::Descriptor(text) => Stage2EventView::Descriptor(text@),
            Stage2Event::Target { whole_disk, size } => Stage2EventView::Target {
                whole_disk: *whole_disk,
                size: *size,
            },
            Stage2Event::Chunk { bytes } => Stage2EventView::Chunk { bytes: *bytes },
            Stage2Event::EndOfImage => Stage2EventView::EndOfImage,
            Stage2Event::Aborted => Stage2EventView::Aborted,
        }
    }
}

/// What the caller is to do next.
#[derive(Debug, PartialEq, Eq)]
pub enum Stage2Action {
    /// Mount the boot partition, read-only, at `BOOT_MOUNT_DIR`.
    MountBoot,
    /// Read the hand-over record from the boot partition.
    ReadDescriptor,
    /// Mount the partition.
    Mount(MountSpec),
    /// Find out whether the device is a whole disk, and its size.
    ProbeTarget { device: String },
    /// Open the image for reading.
    OpenImage { path: String },
    /// Write the next chunk of the image to the device.
    WriteChunk { device: String },
    /// Sync.
    Sync,
    /// Make the kernel read the partition table of the device again.
    RereadPartitions { device: String },
    /// Mount the configuration partition of the flashed system.
    MountConfigPartition { partition: String },
    /// Copy the appliance configuration to the configuration partition.
    DepositConfig { path: String },
    /// Copy the network manager profile to the configuration partition.
    DepositProfile { path: String },
    /// Write a profile for the wireless network to the configuration
    /// partition.
    DepositWifi(WifiConfig),
    /// Flush the log.
    FlushLog,
    /// Take a change of the boot configuration back.
    Restore(UndoStep),
    /// Unmount the configuration partition.
    UnmountConfigPartition,
    /// Unmount what is mounted at the mount point.
    Unmount { mountpoint: String },
    /// Unmount the boot partition.
    UnmountBoot,
    /// Wait a little.
    Delay,
    /// Restart the host.
    Reboot,
    /// Start a rescue shell.
    RescueShell,
    /// Power the host off.
    Poweroff,
    /// Return: stage 2 is over.
    Exit,
}

/// The mathematical content of a `Stage2Action`.
pub enum Stage2ActionView {
    MountBoot,
    ReadDescriptor,
    Mount(MountSpecView),
    ProbeTarget { device: Seq<char> },
    OpenImage { path: Seq<char> },
    WriteChunk { device: Seq<char> },
    Sync,
    RereadPartitions { device: Seq<char> },
    MountConfigPartition { partition: Seq<char> },
    DepositConfig { path: Seq<char> },
    DepositProfile { path: Seq<char> },
    DepositWifi(WifiConfigView),
    FlushLog,
    Restore(UndoStepView),
    UnmountConfigPartition,
    Unmount { mountpoint: Seq<char> },
    UnmountBoot,
    Delay,
    Reboot,
    RescueShell,
    Poweroff,
    Exit,
}

impl View for Stage2Action {
    type V = Stage2ActionView;

    open spec fn view(&self) -> Stage2ActionView {
        match self {
            Stage2Action::MountBoot => Stage2ActionView::MountBoot,
            Stage2Action::ReadDescriptor => Stage2ActionView::ReadDescriptor,
            Stage2Action::Mount(m) => Stage2ActionView::Mount(m@),
            Stage2Action::ProbeTarget { device } => Stage2ActionView::ProbeTarget {
                device: device@,
            },
            Stage2Action::OpenImage { path } => Stage2ActionView::OpenImage { path: path@ },
            Stage2Action::WriteChunk { device } => Stage2ActionView::WriteChunk { device: device@ },
            Stage2Action::Sync => Stage2ActionView::Sync,
            Stage2Action::RereadPartitions { device } => Stage2ActionView::RereadPartitions {
                device: device@,
            },
            Stage2Action::MountConfigPartition { partition } => Stage2ActionView::MountConfigPartition {
                partition: partition@,
            },
            Stage2Action::DepositConfig { path } => Stage2ActionView::DepositConfig { path: path@ },
            Stage2Action::DepositProfile { path } => Stage2ActionView::DepositProfile {
                path: path@,
            },
            Stage2Action::DepositWifi(w) => Stage2ActionView::DepositWifi(w@),
            Stage2Action::FlushLog => Stage2ActionView::FlushLog,
            Stage2Action::Restore(u) => Stage2ActionView::Restore(u@),
            Stage2Action::UnmountConfigPartition => Stage2ActionView::UnmountConfigPartition,
            Stage2Action::Unmount { mountpoint } => Stage2ActionView::Unmount {
                mountpoint: mountpoint@,
            },
            Stage2Action::UnmountBoot => Stage2ActionView::UnmountBoot,
            Stage2Action::Delay => Stage2ActionView::Delay,
            Stage2Action::Reboot => Stage2ActionView::Reboot,
            Stage2Action::RescueShell => Stage2ActionView::RescueShell,
            Stage2Action::Poweroff => Stage2ActionView::Poweroff,
            Stage2Action::Exit => Stage2ActionView::Exit,
        }
    }
}

/// The state of stage 2.
#[derive(Debug, PartialEq, Eq)]
pub struct Stage2State {
    phase: Phase,
    config: Option<Stage2Config>,
    mounted: usize,
    unsynced: u64,
    abort_seen: bool,
}

/// The mathematical content of a `Stage2State`.
pub struct Stage2StateView {
    /// Where stage 2 stands.
    pub phase: Phase,
    /// The hand-over record, once it was read.
    pub config: Option<Stage2ConfigView>,
    /// How many file systems are mounted. They were mounted in this
    /// order: the boot partition, the other partitions that the record
    /// names, the configuration partition of the flashed system.
    pub mounted: nat,
    /// How many bytes were written since the last sync.
    pub unsynced: nat,
    /// Whether the program was aborted before.
    pub abort_seen: bool,
}

/// The view of an optional hand-over record.
pub open spec fn opt_config_view(o: Option<Stage2Config>) -> Option<Stage2ConfigView> {
    match o {
        Some(c) => Some(c@),
        None => None,
    }
}

impl View for Stage2State {
    type V = Stage2StateView;

    closed spec fn view(&self) -> Stage2StateView {
        Stage2StateView {
            phase: self.phase,
            config: opt_config_view(self.config),
            mounted: self.mounted as nat,
            unsynced: self.unsynced as nat,
            abort_seen: self.abort_seen,
        }
    }
}

impl Stage2StateView {
    /// The state before anything was done.
    pub open spec fn initial() -> Stage2StateView {
        Stage2StateView {
            phase: Phase::Start,
            config: None,
            mounted: 0,
            unsynced: 0,
            abort_seen: false,
        }
    }

    /// The number of partitions that the record names besides the boot
    /// partition; zero without a record.
    pub open spec fn n_mounts(self) -> nat {
        match self.config {
            Some(c) => c.mounts.len(),
            None => 0,
        }
    }

    /// The number of network manager profiles; zero without a record.
    pub open spec fn n_nwmgr(self) -> nat {
        match self.config {
            Some(c) => c.nwmgr_files.len(),
            None => 0,
        }
    }

    /// The number of wireless networks; zero without a record.
    pub open spec fn n_wifis(self) -> nat {
        match self.config {
            Some(c) => c.wifis.len(),
            None => 0,
        }
    }

    /// The number of changed boot configuration files; zero without a
    /// record.
    pub open spec fn n_backups(self) -> nat {
        match self.config {
            Some(c) => c.boot_backups.len(),
            None => 0,
        }
    }

    /// The state in the given phase.
    pub open spec fn at(self, phase: Phase) -> Stage2StateView {
        Stage2StateView { phase, ..self }
    }
}

/// The phase at the end of an exit, behind the unmounts: the default
/// exit waits before its last action.
pub open spec fn tail_phase(exit: Exit) -> Phase {
    if exit == Exit::Default {
        Phase::Delay
    } else {
        Phase::Act(exit)
    }
}

/// The phase in which the unmounts of an exit begin: with a sync, where
/// anything is mounted.
pub open spec fn unwind_phase(exit: Exit, mounted: nat) -> Phase {
    if mounted > 0 {
        Phase::UnwindSync(exit)
    } else {
        tail_phase(exit)
    }
}

/// The phase in which an exit begins: an exit for a failure begins with
/// flushing the log, the other one with the unmounts.
pub open spec fn leave_phase(exit: Exit, mounted: nat) -> Phase {
    if exit == Exit::Success {
        unwind_phase(exit, mounted)
    } else {
        Phase::Flush(exit)
    }
}

/// The phase that follows the deposit of the appliance configuration and
/// of the first `done` network manager profiles.
pub open spec fn profiles_phase(done: nat, n_nwmgr: nat, n_wifis: nat) -> Phase {
    if done < n_nwmgr {
        Phase::DepositNwmgr(done as usize)
    } else if n_wifis > 0 {
        Phase::DepositWifi(0)
    } else {
        Phase::DepositSync
    }
}

/// The configuration partition of the system on a flashed device: its
/// first partition. The name of the partition is that of the device with
/// `1` behind it, and with `p` between the two where the name of the
/// device ends in a digit.
pub open spec fn config_partition(device: Seq<char>) -> Seq<char> {
    if device.len() > 0 && is_digit(device.last()) {
        device + "p1"@
    } else {
        device + "1"@
    }
}

/// The configuration partition of the system on a flashed device: see
/// `config_partition`.
pub fn config_partition_of(device: &str) -> (r: String)
    ensures
        r@ == config_partition(device@),
{
    let chars = chars_of(device);
    let mut r = String::from_str(device);
    let after_digit = chars.len() > 0 && {
        let c = chars[chars.len() - 1];
        c == '0' || c == '1' || c == '2' || c == '3' || c == '4' || c == '5' || c == '6' || c == '7'
            || c == '8' || c == '9'
    };
    if after_digit {
        r.append("p1");
    } else {
        r.append("1");
    }
    r
}

/// Whether the size of the flash device is the expected one, give or take
/// `SIZE_TOLERANCE`.
pub open spec fn size_matches(size: nat, expected: nat) -> bool {
    size <= expected + SIZE_TOLERANCE && expected <= size + SIZE_TOLERANCE
}

/// The numbers of items of the lists of the hand-over record.
#[derive(Clone, Copy, Debug, PartialEq, Eq, Structural)]
pub struct Counts {
    /// The partitions to mount besides the boot partition.
    pub mounts: usize,
    /// The network manager profiles.
    pub nwmgr: usize,
    /// The wireless networks.
    pub wifis: usize,
    /// The changed boot configuration files.
    pub backups: usize,
}

/// What an event means to the phase that it ends.
#[derive(Clone, Copy, Debug, PartialEq, Eq, Structural)]
pub enum Outcome {
    /// The action succeeded.
    Done,
    /// The action failed, or came to something that does not fit it.
    Failed,
    /// The flash device is a whole disk of the expected size.
    TargetFits,
    /// A chunk of so many bytes was written.
    Chunk(u64),
    /// Nothing of the image was left to write.
    EndOfImage,
}

impl Stage2StateView {
    /// The numbers of items of the lists of the record; zeros without a
    /// record.
    pub open spec fn counts(self) -> Counts {
        Counts {
            mounts: self.n_mounts() as usize,
            nwmgr: self.n_nwmgr() as usize,
            wifis: self.n_wifis() as usize,
            backups: self.n_backups() as usize,
        }
    }

    /// What the event `e` means in this state. A flash device fits where
    /// it is a whole disk and its size is the one that the record expects,
    /// give or take `SIZE_TOLERANCE`.
    pub open spec fn outcome(self, e: Stage2EventView) -> Outcome {
        match e {
            Stage2EventView::Done => Outcome::Done,
            Stage2EventView::Target { whole_disk, size } => if whole_disk && self.config is Some
                && size_matches(size as nat, self.config->0.drive_size) {
                Outcome::TargetFits
            } else {
                Outcome::Failed
            },
            Stage2EventView::Chunk { bytes } => Outcome::Chunk(bytes),
            Stage2EventView::EndOfImage => Outcome::EndOfImage,
            _ => Outcome::Failed,
        }
    }
}

/// The phase that follows `phase` when its action came to `o`, with
/// `mounted` file systems mounted and `unsynced` bytes written since the
/// last sync.
///
/// Before the exits, every phase but three goes on when its action
/// succeeded: the examination of the flash device when the device fits,
/// and the writing with every chunk, until the image ends; after
/// `SYNC_INTERVAL` bytes it makes room for a sync. Anything else leads to
/// an exit: the default one as long as there is no hand-over record, the
/// one for errors afterwards. Within an exit nothing depends on how an
/// action went. The restart of the exit for a success is not meant to
/// come back: where it does, failed or not, the exit for errors follows.
/// After the last action of the two other exits, stage 2 is over.
pub open spec fn next_phase(phase: Phase, o: Outcome, mounted: nat, unsynced: nat, n: Counts)
    -> Phase {
    match phase {
        Phase::Start => Phase::MountBoot,
        Phase::MountBoot => if o == Outcome::Done {
            Phase::ReadDescriptor
        } else {
            leave_phase(Exit::Default, mounted)
        },
        Phase::ReadDescriptor => leave_phase(Exit::Default, mounted),
        Phase::MountExtra(i) => if o == Outcome::Done {
            if i + 1 < n.mounts {
                Phase::MountExtra((i + 1) as usize)
            } else {
                Phase::ProbeTarget
            }
        } else {
            leave_phase(Exit::Error, mounted)
        },
        Phase::ProbeTarget => if o == Outcome::TargetFits {
            Phase::OpenImage
        } else {
            leave_phase(Exit::Error, mounted)
        },
        Phase::OpenImage => if o == Outcome::Done {
            Phase::Write
        } else {
            leave_phase(Exit::Error, mounted)
        },
        Phase::Write => match o {
            Outcome::Chunk(bytes) => if unsynced + bytes >= SYNC_INTERVAL {
                Phase::WriteSync
            } else {
                Phase::Write
            },
            Outcome::EndOfImage => Phase::FinalSync,
            _ => leave_phase(Exit::Error, mounted),
        },
        Phase::WriteSync => if o == Outcome::Done {
            Phase::Write
        } else {
            leave_phase(Exit::Error, mounted)
        },
        Phase::FinalSync => if o == Outcome::Done {
            Phase::Reread
        } else {
            leave_phase(Exit::Error, mounted)
        },
        Phase::Reread => if o == Outcome::Done {
            Phase::MountConfig
        } else {
            leave_phase(Exit::Error, mounted)
        },
        Phase::MountConfig => if o == Outcome::Done {
            Phase::DepositConfig
        } else {
            leave_phase(Exit::Error, mounted)
        },
        Phase::DepositConfig => if o == Outcome::Done {
            profiles_phase(0, n.nwmgr as nat, n.wifis as nat)
        } else {
            leave_phase(Exit::Error, mounted)
        },
        Phase::DepositNwmgr(i) => if o == Outcome::Done {
            profiles_phase((i + 1) as nat, n.nwmgr as nat, n.wifis as nat)
        } else {
            leave_phase(Exit::Error, mounted)
        },
        Phase::DepositWifi(i) => if o == Outcome::Done {
            if i + 1 < n.wifis {
                Phase::DepositWifi((i + 1) as usize)
            } else {
                Phase::DepositSync
            }
        } else {
            leave_phase(Exit::Error, mounted)
        },
        Phase::DepositSync => if o == Outcome::Done {
            leave_phase(Exit::Success, mounted)
        } else {
            leave_phase(Exit::Error, mounted)
        },
        Phase::Flush(exit) => Phase::ExitSync(exit),
        Phase::ExitSync(exit) => if exit == Exit::Error && n.backups > 0 {
            Phase::Restore(0)
        } else {
            unwind_phase(exit, mounted)
        },
        Phase::Restore(i) => if i + 1 < n.backups {
            Phase::Restore((i + 1) as usize)
        } else {
            unwind_phase(Exit::Error, mounted)
        },
        Phase::UnwindSync(exit) => Phase::Unmount(exit),
        Phase::Unmount(exit) => if mounted > 1 {
            Phase::UnwindSync(exit)
        } else {
            tail_phase(exit)
        },
        Phase::Delay => Phase::Act(Exit::Default),
        Phase::Act(exit) => if exit == Exit::Success {
            leave_phase(Exit::Error, mounted)
        } else {
            Phase::Finished
        },
        Phase::Finished => Phase::Finished,
    }
}

/// How many file systems are mounted after the action of `phase` came to
/// `o`: one more after a mount that succeeded, one less after an unmount,
/// whether it succeeded or not.
pub open spec fn next_mounted(phase: Phase, o: Outcome, mounted: nat) -> nat {
    match phase {
        Phase::MountBoot => if o == Outcome::Done {
            1
        } else {
            mounted
        },
        Phase::MountExtra(_) => if o == Outcome::Done {
            mounted + 1
        } else {
            mounted
        },
        Phase::MountConfig => if o == Outcome::Done {
            mounted + 1
        } else {
            mounted
        },
        Phase::Unmount(_) => if mounted > 1 {
            (mounted - 1) as nat
        } else {
            0
        },
        _ => mounted,
    }
}

/// How many bytes were written since the last sync, after the action of
/// `phase` came to `o`.
pub open spec fn next_unsynced(phase: Phase, o: Outcome, unsynced: nat) -> nat {
    match (phase, o) {
        (Phase::Write, Outcome::Chunk(bytes)) => if unsynced + bytes >= SYNC_INTERVAL {
            0
        } else {
            (unsynced + bytes) as nat
        },
        _ => unsynced,
    }
}

/// The state that follows `s` when the action of `s` came to `e`.
///
/// Nothing follows the end. An abort leads to the default exit the first
/// time, and ends stage 2 the second time. A hand-over record is taken
/// where its text is one and the machine can count its mounts; the first
/// of them is mounted next, or the flash device examined where there is
/// none. Everything else is as `next_phase`, `next_mounted` and
/// `next_unsynced` say.
pub open spec fn next_state(s: Stage2StateView, e: Stage2EventView) -> Stage2StateView {
    if s.phase == Phase::Finished {
        s
    } else if e is Aborted {
        if s.abort_seen {
            s.at(Phase::Finished)
        } else {
            Stage2StateView { phase: Phase::Flush(Exit::Default), abort_seen: true, ..s }
        }
    } else if s.phase == Phase::ReadDescriptor && loaded(e) is Some {
        Stage2StateView {
            phase: if loaded(e)->0.mounts.len() > 0 {
                Phase::MountExtra(0)
            } else {
                Phase::ProbeTarget
            },
            config: loaded(e),
            ..s
        }
    } else {
        Stage2StateView {
            phase: next_phase(s.phase, s.outcome(e), s.mounted, s.unsynced, s.counts()),
            mounted: next_mounted(s.phase, s.outcome(e), s.mounted),
            unsynced: next_unsynced(s.phase, s.outcome(e), s.unsynced),
            ..s
        }
    }
}

/// The hand-over record that an event brings: the one that its text
/// stands for, where the event is the text of a record whose mounts the
/// machine can count.
pub open spec fn loaded(e: Stage2EventView) -> Option<Stage2ConfigView> {
    match e {
        Stage2EventView::Descriptor(text) => match parse_spec(text) {
            Ok(c) => if c.mounts.len() + 2 <= usize::MAX {
                Some(c)
            } else {
                None
            },
            Err(_) => None,
        },
        _ => None,
    }
}

/// The action that is under way in state `s`.
///
/// A phase that needs the hand-over record, or an item of one of its
/// lists, has the action `Exit` where the record or the item is not
/// there; no state that `next_state` leads to from the initial state is
/// like that.
pub open spec fn action_of(s: Stage2StateView) -> Stage2ActionView {
    match s.phase {
        Phase::Start => Stage2ActionView::Exit,
        Phase::MountBoot => Stage2ActionView::MountBoot,
        Phase::ReadDescriptor => Stage2ActionView::ReadDescriptor,
        Phase::MountExtra(i) => if i < s.n_mounts() {
            Stage2ActionView::Mount(s.config->0.mounts[i as int])
        } else {
            Stage2ActionView::Exit
        },
        Phase::ProbeTarget => match s.config {
            Some(c) => Stage2ActionView::ProbeTarget { device: c.flash_device },
            None => Stage2ActionView::Exit,
        },
        Phase::OpenImage => match s.config {
            Some(c) => Stage2ActionView::OpenImage { path: c.image_path },
            None => Stage2ActionView::Exit,
        },
        Phase::Write => match s.config {
            Some(c) => Stage2ActionView::WriteChunk { device: c.flash_device },
            None => Stage2ActionView::Exit,
        },
        Phase::WriteSync => Stage2ActionView::Sync,
        Phase::FinalSync => Stage2ActionView::Sync,
        Phase::Reread => match s.config {
            Some(c) => Stage2ActionView::RereadPartitions { device: c.flash_device },
            None => Stage2ActionView::Exit,
        },
        Phase::MountConfig => match s.config {
            Some(c) => Stage2ActionView::MountConfigPartition {
                partition: config_partition(c.flash_device),
            },
            None => Stage2ActionView::Exit,
        },
        Phase::DepositConfig => match s.config {
            Some(c) => Stage2ActionView::DepositConfig { path: c.config_path },
            None => Stage2ActionView::Exit,
        },
        Phase::DepositNwmgr(i) => if i < s.n_nwmgr() {
            Stage2ActionView::DepositProfile { path: s.config->0.nwmgr_files[i as int] }
        } else {
            Stage2ActionView::Exit
        },
        Phase::DepositWifi(i) => if i < s.n_wifis() {
            Stage2ActionView::DepositWifi(s.config->0.wifis[i as int])
        } else {
            Stage2ActionView::Exit
        },
        Phase::DepositSync => Stage2ActionView::Sync,
        Phase::Flush(_) => Stage2ActionView::FlushLog,
        Phase::ExitSync(_) => Stage2ActionView::Sync,
        Phase::Restore(i) => if i < s.n_backups() {
            Stage2ActionView::Restore(
                UndoStepView::Restore {
                    from: s.config->0.boot_backups[s.n_backups() - 1 - i].1,
                    to: s.config->0.boot_backups[s.n_backups() - 1 - i].0,
                },
            )
        } else {
            Stage2ActionView::Exit
        },
        Phase::UnwindSync(_) => Stage2ActionView::Sync,
        Phase::Unmount(_) => if s.mounted <= 1 {
            Stage2ActionView::UnmountBoot
        } else if s.mounted - 2 < s.n_mounts() {
            Stage2ActionView::Unmount { mountpoint: s.config->0.mounts[s.mounted - 2].mountpoint }
        } else {
            Stage2ActionView::UnmountConfigPartition
        },
        Phase::Delay => Stage2ActionView::Delay,
        Phase::Act(exit) => if exit == Exit::Error {
            match s.config {
                Some(c) => match c.fail_mode {
                    FailMode::Reboot => Stage2ActionView::Reboot,
                    FailMode::RescueShell => Stage2ActionView::RescueShell,
                    FailMode::Poweroff => Stage2ActionView::Poweroff,
                },
                None => Stage2ActionView::Reboot,
            }
        } else {
            Stage2ActionView::Reboot
        },
        Phase::Finished => Stage2ActionView::Exit,
    }
}


/// What holds of every state that stage 2 can be in: the record is there
/// in every phase that needs it, every phase that stands at an item of a
/// list stands at one that is there, and as many file systems are mounted
/// as the phase tells.
pub open spec fn wf(s: Stage2StateView) -> bool {
    &&& s.n_mounts() + 2 <= usize::MAX
    &&& s.unsynced < SYNC_INTERVAL
    &&& match s.phase {
        Phase::Start => s.config is None && s.mounted == 0,
        Phase::MountBoot => s.config is None && s.mounted == 0,
        Phase::ReadDescriptor => s.config is None && s.mounted == 1,
        Phase::MountExtra(i) => s.config is Some && i < s.n_mounts() && s.mounted == i + 1,
        Phase::ProbeTarget => s.config is Some && s.mounted == s.n_mounts() + 1,
        Phase::OpenImage => s.config is Some && s.mounted == s.n_mounts() + 1,
        Phase::Write => s.config is Some && s.mounted == s.n_mounts() + 1,
        Phase::WriteSync => s.config is Some && s.mounted == s.n_mounts() + 1,
        Phase::FinalSync => s.config is Some && s.mounted == s.n_mounts() + 1,
        Phase::Reread => s.config is Some && s.mounted == s.n_mounts() + 1,
        Phase::MountConfig => s.config is Some && s.mounted == s.n_mounts() + 1,
        Phase::DepositConfig => s.config is Some && s.mounted == s.n_mounts() + 2,
        Phase::DepositNwmgr(i) => s.config is Some && s.mounted == s.n_mounts() + 2 && i
            < s.n_nwmgr(),
        Phase::DepositWifi(i) => s.config is Some && s.mounted == s.n_mounts() + 2 && i
            < s.n_wifis(),
        Phase::DepositSync => s.config is Some && s.mounted == s.n_mounts() + 2,
        Phase::Flush(exit) => exit != Exit::Success && exit_wf(s, exit),
        Phase::ExitSync(exit) => exit != Exit::Success && exit_wf(s, exit),
        Phase::Restore(i) => exit_wf(s, Exit::Error) && i < s.n_backups(),
        Phase::UnwindSync(exit) => exit_wf(s, exit) && s.mounted >= 1,
        Phase::Unmount(exit) => exit_wf(s, exit) && s.mounted >= 1,
        Phase::Delay => exit_wf(s, Exit::Default) && s.mounted == 0,
        Phase::Act(exit) => exit_wf(s, exit) && s.mounted == 0,
        Phase::Finished => mounted_wf(s),
    }
}

/// No more is mounted than the boot partition, the partitions that the
/// record names and the configuration partition; without a record, no
/// more than the boot partition.
pub open spec fn mounted_wf(s: Stage2StateView) -> bool {
    if s.config is Some {
        s.mounted <= s.n_mounts() + 2
    } else {
        s.mounted <= 1
    }
}

/// What holds within an exit: only the default exit is without a record.
pub open spec fn exit_wf(s: Stage2StateView, exit: Exit) -> bool {
    mounted_wf(s) && (exit != Exit::Default ==> s.config is Some)
}

/// Whether the phase is part of an exit.
pub open spec fn in_exit(phase: Phase) -> bool {
    match phase {
        Phase::Flush(_) => true,
        Phase::ExitSync(_) => true,
        Phase::Restore(_) => true,
        Phase::UnwindSync(_) => true,
        Phase::Unmount(_) => true,
        Phase::Delay => true,
        Phase::Act(_) => true,
        Phase::Finished => true,
        _ => false,
    }
}

/// Stage 2 begins in a state that is as it should be, and every step
/// leads from such a state to such a state.
pub proof fn lemma_next_wf(s: Stage2StateView, e: Stage2EventView)
    requires
        wf(s),
    ensures
        wf(Stage2StateView::initial()),
        wf(next_state(s, e)),
{
}

/// Stage 2 writes to no device but the flash device of the hand-over
/// record, and once it has the record, it keeps it: every write action
/// names the flash device of the one record that was read.
pub proof fn lemma_writes_go_to_flash_device(s: Stage2StateView, e: Stage2EventView)
    requires
        wf(s),
    ensures
        action_of(s) matches Stage2ActionView::WriteChunk { device } ==> s.config matches Some(c)
            && device == c.flash_device,
        s.config is Some ==> next_state(s, e).config == s.config,
{
}

/// There is no way back from an exit, and no exit writes to a device,
/// examines one or opens the image. A text that is no hand-over record of
/// the known schema version leads to the default exit.
pub proof fn lemma_exit_is_final(s: Stage2StateView, e: Stage2EventView)
    ensures
        in_exit(s.phase) ==> in_exit(next_state(s, e).phase),
        in_exit(s.phase) ==> !(action_of(s) is WriteChunk) && !(action_of(s) is ProbeTarget) && !(
        action_of(s) is OpenImage),
        s.phase == Phase::ReadDescriptor && !s.abort_seen && (e matches Stage2EventView::Descriptor(
            text,
        ) && parse_spec(text) is Err) ==> next_state(s, e).phase == Phase::Flush(Exit::Default),
{
}

/// What was mounted is unmounted in the reverse order, each after a sync:
/// the unmount takes what was mounted last, one file system less is
/// mounted afterwards, and nothing leads to an unmount but the sync
/// before it.
pub proof fn lemma_ordered_unmount(s: Stage2StateView, e: Stage2EventView)
    requires
        wf(s),
    ensures
        s.phase matches Phase::Unmount(exit) && !(e is Aborted) ==> next_state(s, e).mounted
            == s.mounted - 1,
        s.phase matches Phase::Unmount(exit) ==> action_of(s) == (if s.mounted == 1 {
            Stage2ActionView::UnmountBoot
        } else if s.mounted == s.n_mounts() + 2 {
            Stage2ActionView::UnmountConfigPartition
        } else {
            Stage2ActionView::Unmount { mountpoint: s.config->0.mounts[s.mounted - 2].mountpoint }
        }),
        next_state(s, e).phase matches Phase::Unmount(exit) ==> s.phase == next_state(s, e).phase
            || (s.phase == Phase::UnwindSync(exit) && action_of(s) == Stage2ActionView::Sync),
        !in_exit(s.phase) ==> next_state(s, e).mounted >= s.mounted,
{
}

/// A restart that comes back is a failure: after the restart of the exit
/// for a success, stage 2 goes on with the exit for errors, whether the
/// restart is said to have failed or not. Nothing but the last action of
/// the exit for errors or of the default exit, or a second abort, ends
/// stage 2.
pub proof fn lemma_returning_restart_is_a_failure(s: Stage2StateView, e: Stage2EventView)
    requires
        wf(s),
    ensures
        s.phase == Phase::Act(Exit::Success) && !(e is Aborted) ==> next_state(s, e).phase
            == Phase::Flush(Exit::Error) && action_of(next_state(s, e))
            == Stage2ActionView::FlushLog,
        next_state(s, e).phase == Phase::Finished ==> s.phase == Phase::Finished || s.phase
            == Phase::Act(Exit::Error) || s.phase == Phase::Act(Exit::Default) || (e is Aborted
            && s.abort_seen),
{
}

/// The last action of an exit comes when nothing is mounted any more.
pub proof fn lemma_exit_unmounts_all(s: Stage2StateView)
    requires
        wf(s),
    ensures
        s.phase is Act || s.phase == Phase::Delay ==> s.mounted == 0,
{
}


fn tail_of(exit: Exit) -> (r: Phase)
    ensures
        r == tail_phase(exit),
{
    match exit {
        Exit::Default => Phase::Delay,
        _ => Phase::Act(exit),
    }
}

fn unwind_of(exit: Exit, mounted: usize) -> (r: Phase)
    ensures
        r == unwind_phase(exit, mounted as nat),
{
    if mounted > 0 {
        Phase::UnwindSync(exit)
    } else {
        tail_of(exit)
    }
}

fn leave_of(exit: Exit, mounted: usize) -> (r: Phase)
    ensures
        r == leave_phase(exit, mounted as nat),
{
    match exit {
        Exit::Success => unwind_of(exit, mounted),
        _ => Phase::Flush(exit),
    }
}

fn profiles_of(done: usize, n_nwmgr: usize, n_wifis: usize) -> (r: Phase)
    ensures
        r == profiles_phase(done as nat, n_nwmgr as nat, n_wifis as nat),
{
    if done < n_nwmgr {
        Phase::DepositNwmgr(done)
    } else if n_wifis > 0 {
        Phase::DepositWifi(0)
    } else {
        Phase::DepositSync
    }
}

/// Decides `size_matches`.
fn size_fits(size: u64, expected: u64) -> (r: bool)
    ensures
        r == size_matches(size as nat, expected as nat),
{
    let low = if expected >= SIZE_TOLERANCE {
        expected - SIZE_TOLERANCE
    } else {
        0
    };
    let over = if size >= SIZE_TOLERANCE {
        size - SIZE_TOLERANCE
    } else {
        0
    };
    size >= low && over <= expected
}

impl Stage2State {
    /// Every state of stage 2 is as `wf` says.
    #[verifier::type_invariant]
    closed spec fn inv(&self) -> bool {
        wf(self@)
    }

    /// The state before anything was done.
    pub fn new() -> (r: Stage2State)
        ensures
            r@ == Stage2StateView::initial(),
    {
        Stage2State { phase: Phase::Start, config: None, mounted: 0, unsynced: 0, abort_seen: false }
    }

    /// Where stage 2 stands.
    pub fn phase(&self) -> (r: Phase)
        ensures
            r == self@.phase,
    {
        self.phase
    }

    /// Whether nothing is left to do.
    pub fn is_finished(&self) -> (r: bool)
        ensures
            r == (self@.phase == Phase::Finished),
    {
        match self.phase {
            Phase::Finished => true,
            _ => false,
        }
    }

    /// The hand-over record, once it was read.
    pub fn config(&self) -> (r: &Option<Stage2Config>)
        ensures
            opt_config_view(*r) == self@.config,
    {
        &self.config
    }

    /// How many file systems are mounted.
    pub fn mounted(&self) -> (r: usize)
        ensures
            r == self@.mounted,
    {
        self.mounted
    }

    /// The action that is under way in this state.
    pub fn action(&self) -> (a: Stage2Action)
        ensures
            a@ == action_of(self@),
    {
        proof {
            use_type_invariant(self);
        }
        match self.phase {
            Phase::Start => Stage2Action::Exit,
            Phase::MountBoot => Stage2Action::MountBoot,
            Phase::ReadDescriptor => Stage2Action::ReadDescriptor,
            Phase::WriteSync => Stage2Action::Sync,
            Phase::FinalSync => Stage2Action::Sync,
            Phase::DepositSync => Stage2Action::Sync,
            Phase::Flush(_) => Stage2Action::FlushLog,
            Phase::ExitSync(_) => Stage2Action::Sync,
            Phase::UnwindSync(_) => Stage2Action::Sync,
            Phase::Delay => Stage2Action::Delay,
            Phase::Finished => Stage2Action::Exit,
            Phase::Unmount(_) => {
                if self.mounted <= 1 {
                    Stage2Action::UnmountBoot
                } else {
                    match &self.config {
                        Some(c) => {
                            if self.mounted - 2 < c.mounts.len() {
                                Stage2Action::Unmount {
                                    mountpoint: c.mounts[self.mounted - 2].mountpoint.clone(),
                                }
                            } else {
                                Stage2Action::UnmountConfigPartition
                            }
                        },
                        None => Stage2Action::UnmountConfigPartition,
                    }
                }
            },
            Phase::Act(exit) => {
                match (exit, &self.config) {
                    (Exit::Error, Some(c)) => match c.fail_mode {
                        FailMode::Reboot => Stage2Action::Reboot,
                        FailMode::RescueShell => Stage2Action::RescueShell,
                        FailMode::Poweroff => Stage2Action::Poweroff,
                    },
                    _ => Stage2Action::Reboot,
                }
            },
            _ => {
                match &self.config {
                    None => Stage2Action::Exit,
                    Some(c) => match self.phase {
                        Phase::MountExtra(i) => {
                            if i < c.mounts.len() {
                                Stage2Action::Mount(c.mounts[i].clone())
                            } else {
                                Stage2Action::Exit
                            }
                        },
                        Phase::ProbeTarget => Stage2Action::ProbeTarget {
                            device: c.flash_device.clone(),
                        },
                        Phase::OpenImage => Stage2Action::OpenImage { path: c.image_path.clone() },
                        Phase::Write => Stage2Action::WriteChunk { device: c.flash_device.clone() },
                        Phase::Reread => Stage2Action::RereadPartitions {
                            device: c.flash_device.clone(),
                        },
                        Phase::MountConfig => Stage2Action::MountConfigPartition {
                            partition: config_partition_of(c.flash_device.as_str()),
                        },
                        Phase::DepositConfig => Stage2Action::DepositConfig {
                            path: c.config_path.clone(),
                        },
                        Phase::DepositNwmgr(i) => {
                            if i < c.nwmgr_files.len() {
                                Stage2Action::DepositProfile { path: c.nwmgr_files[i].clone() }
                            } else {
                                Stage2Action::Exit
                            }
                        },
                        Phase::DepositWifi(i) => {
                            if i < c.wifis.len() {
                                Stage2Action::DepositWifi(c.wifis[i].clone())
                            } else {
                                Stage2Action::Exit
                            }
                        },
                        Phase::Restore(i) => {
                            let n = c.boot_backups.len();
                            if i < n {
                                let pair = &c.boot_backups[n - 1 - i];
                                Stage2Action::Restore(
                                    UndoStep::Restore { from: pair.1.clone(), to: pair.0.clone() },
                                )
                            } else {
                                Stage2Action::Exit
                            }
                        },
                        _ => Stage2Action::Exit,
                    },
                }
            },
        }
    }

    /// The state that follows this one when its action came to `event`.
    fn step(self, event: Stage2Event) -> (r: Stage2State)
        ensures
            r@ == next_state(self@, event@),
    {
        proof {
            use_type_invariant(&self);
            lemma_next_wf(self@, event@);
        }
        let Stage2State { phase, config, mounted, unsynced, abort_seen } = self;
        if let Phase::Finished = phase {
            return Stage2State { phase, config, mounted, unsynced, abort_seen };
        }
        if let Stage2Event::Aborted = event {
            let then = if abort_seen {
                Phase::Finished
            } else {
                Phase::Flush(Exit::Default)
            };
            return Stage2State { phase: then, config, mounted, unsynced, abort_seen: true };
        }
        if let Phase::ReadDescriptor = phase {
            if let Stage2Event::Descriptor(text) = &event {
                if let Ok(c) = Stage2Config::parse(text.as_str()) {
                    if c.mounts.len() <= usize::MAX - 2 {
                        let first = if c.mounts.len() > 0 {
                            Phase::MountExtra(0)
                        } else {
                            Phase::ProbeTarget
                        };
                        return Stage2State {
                            phase: first,
                            config: Some(c),
                            mounted,
                            unsynced,
                            abort_seen,
                        };
                    }
                }
            }
        }
        let counts = match &config {
            Some(c) => Counts {
                mounts: c.mounts.len(),
                nwmgr: c.nwmgr_files.len(),
                wifis: c.wifis.len(),
                backups: c.boot_backups.len(),
            },
            None => Counts { mounts: 0, nwmgr: 0, wifis: 0, backups: 0 },
        };
        let o = match event {
            Stage2Event::Done => Outcome::Done,
            Stage2Event::Target { whole_disk, size } => match &config {
                Some(c) => if whole_disk && size_fits(size, c.drive_size) {
                    Outcome::TargetFits
                } else {
                    Outcome::Failed
                },
                None => Outcome::Failed,
            },
            Stage2Event::Chunk { bytes } => Outcome::Chunk(bytes),
            Stage2Event::EndOfImage => Outcome::EndOfImage,
            _ => Outcome::Failed,
        };
        let then = phase_after(phase, o, mounted, unsynced, counts);
        let now_mounted = mounted_after(phase, o, mounted);
        let now_unsynced = unsynced_after(phase, o, unsynced);
        Stage2State {
            phase: then,
            config,
            mounted: now_mounted,
            unsynced: now_unsynced,
            abort_seen,
        }
    }
}

/// Decides `next_phase`.
fn phase_after(phase: Phase, o: Outcome, mounted: usize, unsynced: u64, n: Counts) -> (r: Phase)
    ensures
        r == next_phase(phase, o, mounted as nat, unsynced as nat, n),
{
    let done = o == Outcome::Done;
    match phase {
        Phase::Start => Phase::MountBoot,
        Phase::MountBoot => if done {
            Phase::ReadDescriptor
        } else {
            leave_of(Exit::Default, mounted)
        },
        Phase::ReadDescriptor => leave_of(Exit::Default, mounted),
        Phase::MountExtra(i) => if done {
            if n.mounts > 0 && i < n.mounts - 1 {
                Phase::MountExtra(i + 1)
            } else {
                Phase::ProbeTarget
            }
        } else {
            leave_of(Exit::Error, mounted)
        },
        Phase::ProbeTarget => if o == Outcome::TargetFits {
            Phase::OpenImage
        } else {
            leave_of(Exit::Error, mounted)
        },
        Phase::OpenImage => if done {
            Phase::Write
        } else {
            leave_of(Exit::Error, mounted)
        },
        Phase::Write => match o {
            Outcome::Chunk(bytes) => {
                let full = match unsynced.checked_add(bytes) {
                    Some(sum) => sum >= SYNC_INTERVAL,
                    None => true,
                };
                if full {
                    Phase::WriteSync
                } else {
                    Phase::Write
                }
            },
            Outcome::EndOfImage => Phase::FinalSync,
            _ => leave_of(Exit::Error, mounted),
        },
        Phase::WriteSync => if done {
            Phase::Write
        } else {
            leave_of(Exit::Error, mounted)
        },
        Phase::FinalSync => if done {
            Phase::Reread
        } else {
            leave_of(Exit::Error, mounted)
        },
        Phase::Reread => if done {
            Phase::MountConfig
        } else {
            leave_of(Exit::Error, mounted)
        },
        Phase::MountConfig => if done {
            Phase::DepositConfig
        } else {
            leave_of(Exit::Error, mounted)
        },
        Phase::DepositConfig => if done {
            profiles_of(0, n.nwmgr, n.wifis)
        } else {
            leave_of(Exit::Error, mounted)
        },
        Phase::DepositNwmgr(i) => if done {
            if n.nwmgr > 0 && i < n.nwmgr - 1 {
                Phase::DepositNwmgr(i + 1)
            } else if n.wifis > 0 {
                Phase::DepositWifi(0)
            } else {
                Phase::DepositSync
            }
        } else {
            leave_of(Exit::Error, mounted)
        },
        Phase::DepositWifi(i) => if done {
            if n.wifis > 0 && i < n.wifis - 1 {
                Phase::DepositWifi(i + 1)
            } else {
                Phase::DepositSync
            }
        } else {
            leave_of(Exit::Error, mounted)
        },
        Phase::DepositSync => if done {
            leave_of(Exit::Success, mounted)
        } else {
            leave_of(Exit::Error, mounted)
        },
        Phase::Flush(exit) => Phase::ExitSync(exit),
        Phase::ExitSync(exit) => if exit == Exit::Error && n.backups > 0 {
            Phase::Restore(0)
        } else {
            unwind_of(exit, mounted)
        },
        Phase::Restore(i) => if n.backups > 0 && i < n.backups - 1 {
            Phase::Restore(i + 1)
        } else {
            unwind_of(Exit::Error, mounted)
        },
        Phase::UnwindSync(exit) => Phase::Unmount(exit),
        Phase::Unmount(exit) => if mounted > 1 {
            Phase::UnwindSync(exit)
        } else {
            tail_of(exit)
        },
        Phase::Delay => Phase::Act(Exit::Default),
        Phase::Act(exit) => match exit {
            Exit::Success => leave_of(Exit::Error, mounted),
            _ => Phase::Finished,
        },
        Phase::Finished => Phase::Finished,
    }
}

/// Decides `next_mounted`, where the number fits the machine.
fn mounted_after(phase: Phase, o: Outcome, mounted: usize) -> (r: usize)
    requires
        next_mounted(phase, o, mounted as nat) <= usize::MAX,
    ensures
        r == next_mounted(phase, o, mounted as nat),
{
    let done = o == Outcome::Done;
    match phase {
        Phase::MountBoot => if done {
            1
        } else {
            mounted
        },
        Phase::MountExtra(_) => if done {
            mounted + 1
        } else {
            mounted
        },
        Phase::MountConfig => if done {
            mounted + 1
        } else {
            mounted
        },
        Phase::Unmount(_) => if mounted > 1 {
            mounted - 1
        } else {
            0
        },
        _ => mounted,
    }
}

/// Decides `next_unsynced`.
fn unsynced_after(phase: Phase, o: Outcome, unsynced: u64) -> (r: u64)
    ensures
        r == next_unsynced(phase, o, unsynced as nat),
{
    match (phase, o) {
        (Phase::Write, Outcome::Chunk(bytes)) => match unsynced.checked_add(bytes) {
            Some(sum) => if sum >= SYNC_INTERVAL {
                0
            } else {
                sum
            },
            None => 0,
        },
        _ => unsynced,
    }
}

/// One step of stage 2: the state that follows `state` when its action
/// came to `event`, and the action to perform next.
///
/// Stage 2 begins in the state `Stage2State::new()`; what the first event
/// is does not matter, unless it is `Aborted`. It is over when the action
/// is `Exit`.
pub fn stage2(state: Stage2State, event: Stage2Event) -> (r: (Stage2State, Stage2Action))
    ensures
        r.0@ == next_state(state@, event@),
        r.1@ == action_of(r.0@),
        wf(r.0@),
{
    let next = state.step(event);
    let action = next.action();
    proof {
        use_type_invariant(&next);
    }
    (next, action)
}

} // verus!
