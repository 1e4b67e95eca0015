//! The record that stage 1 hands over to stage 2. It is the only state
//! that survives the reboot between the two.

use vstd::prelude::*;
use vstd::string::*;

use crate::defs::{BootType, BootTypeView, FailMode, LogLevel};
use crate::devices::opt_view;
use crate::error::{MigError, MigErrorKind};
use crate::migrate_info::{pairs_view, wifis_view, WifiConfig, WifiConfigView};
use crate::text::{chars_of, chars_within, path_within, strings_view};

verus! {

/// Where stage 2 mounts the boot partition.
pub const BOOT_MOUNT_DIR: &'static str = "/mnt/boot";

/// The path of the hand-over record, below the boot partition.
pub const STAGE2_CFG_FILE: &'static str = "balena-stage2.cfg";

/// A partition that stage 2 mounts before it reads its files.
#[derive(Debug, PartialEq, Eq)]
pub struct MountSpec {
    pub device: String,
    pub fstype: String,
    pub mountpoint: String,
}

/// The mathematical content of a `MountSpec`.
pub struct MountSpecView {
    pub device: Seq<char>,
    pub fstype: Seq<char>,
    pub mountpoint: Seq<char>,
}

impl View for MountSpec {
    type V = MountSpecView;

    open spec fn view(&self) -> MountSpecView {
        MountSpecView { device: self.device@, fstype: self.fstype@, mountpoint: self.mountpoint@ }
    }
}

impl Clone for MountSpec {
    fn clone(&self) -> (r: Self)
        ensures
            r == *self,
    {
        MountSpec {
            device: self.device.clone(),
            fstype: self.fstype.clone(),
            mountpoint: self.mountpoint.clone(),
        }
    }
}

/// The views of a sequence of mounts.
pub open spec fn mount_specs_view(v: Seq<MountSpec>) -> Seq<MountSpecView> {
    Seq::new(v.len(), |i: int| v[i]@)
}

/// The hand-over record.
#[derive(Debug, PartialEq, Eq)]
pub struct Stage2Config {
    /// The device that stage 2 overwrites.
    pub flash_device: String,
    /// The size in bytes that the flash device is expected to have.
    pub drive_size: u64,
    /// The appliance image, as stage 2 finds it.
    pub image_path: String,
    /// The appliance configuration, as stage 2 finds it.
    pub config_path: String,
    /// The network manager profiles, as stage 2 finds them.
    pub nwmgr_files: Vec<String>,
    /// The wireless networks to set up.
    pub wifis: Vec<WifiConfig>,
    /// What to do after a failure.
    pub fail_mode: FailMode,
    /// The device to log to, if any.
    pub log_device: Option<String>,
    /// How verbose the log is.
    pub log_level: LogLevel,
    /// The boot configuration files that were changed, each with its
    /// backup, as stage 2 finds them.
    pub boot_backups: Vec<(String, String)>,
    /// The partition that holds the boot files.
    pub boot_device: String,
    /// The file system of the boot partition.
    pub boot_fstype: String,
    /// The UUID of the boot partition, where it has one.
    pub boot_uuid: Option<String>,
    /// The kernel command line that stage 2 was started with.
    pub kernel_cmdline: String,
    /// The boot loader family of the host.
    pub boot_type: BootType,
    /// The partitions to mount besides the boot partition.
    pub mounts: Vec<MountSpec>,
}

/// The mathematical content of a `Stage2Config`.
pub struct Stage2ConfigView {
    pub flash_device: Seq<char>,
    pub drive_size: nat,
    pub image_path: Seq<char>,
    pub config_path: Seq<char>,
    pub nwmgr_files: Seq<Seq<char>>,
    pub wifis: Seq<WifiConfigView>,
    pub fail_mode: FailMode,
    pub log_device: Option<Seq<char>>,
    pub log_level: LogLevel,
    pub boot_backups: Seq<(Seq<char>, Seq<char>)>,
    pub boot_device: Seq<char>,
    pub boot_fstype: Seq<char>,
    pub boot_uuid: Option<Seq<char>>,
    pub kernel_cmdline: Seq<char>,
    pub boot_type: BootTypeView,
    pub mounts: Seq<MountSpecView>,
}

impl View for Stage2Config {
    type V = Stage2ConfigView;

    open spec fn view(&self) -> Stage2ConfigView {
        Stage2ConfigView {
            flash_device: self.flash_device@,
            drive_size: self.drive_size as nat,
            image_path: self.image_path@,
            config_path: self.config_path@,
            nwmgr_files: strings_view(self.nwmgr_files@),
            wifis: wifis_view(self.wifis@),
            fail_mode: self.fail_mode,
            log_device: opt_view(self.log_device),
            log_level: self.log_level,
            boot_backups: pairs_view(self.boot_backups@),
            boot_device: self.boot_device@,
            boot_fstype: self.boot_fstype@,
            boot_uuid: opt_view(self.boot_uuid),
            kernel_cmdline: self.kernel_cmdline@,
            boot_type: self.boot_type@,
            mounts: mount_specs_view(self.mounts@),
        }
    }
}

impl Stage2ConfigView {
    /// Whether stage 2 can reach `path`: it lies on the boot partition,
    /// which stage 2 mounts at `BOOT_MOUNT_DIR`, or on one of the other
    /// partitions that the record tells it to mount.
    pub open spec fn reaches(self, path: Seq<char>) -> bool {
        path_within(BOOT_MOUNT_DIR@, path) || exists|i: int|
            0 <= i < self.mounts.len() && path_within(#[trigger] self.mounts[i].mountpoint, path)
    }

    /// Whether stage 2 can reach every file that the record names: the
    /// image, the configuration, the network manager profiles, and each
    /// changed boot configuration file with its backup.
    pub open spec fn all_reachable(self) -> bool {
        &&& self.reaches(self.image_path)
        &&& self.reaches(self.config_path)
        &&& forall|i: int|
            0 <= i < self.nwmgr_files.len() ==> self.reaches(#[trigger] self.nwmgr_files[i])
        &&& forall|i: int|
            0 <= i < self.boot_backups.len() ==> self.reaches((#[trigger] self.boot_backups[i]).0)
                && self.reaches(self.boot_backups[i].1)
    }
}

impl Stage2Config {
    /// Decides `reaches`.
    pub fn can_reach(&self, path: &str) -> (r: bool)
        ensures
            r == self@.reaches(path@),
    {
        let target = chars_of(path);
        let boot = chars_of(BOOT_MOUNT_DIR);
        if chars_within(&boot, &target) {
            return true;
        }
        let mut i: usize = 0;
        while i < self.mounts.len()
            invariant
                i <= self.mounts.len(),
                target@ == path@,
                forall|j: int|
                    0 <= j < i ==> !path_within(#[trigger] self@.mounts[j].mountpoint, path@),
            decreases self.mounts.len() - i,
        {
            let mp = chars_of(self.mounts[i].mountpoint.as_str());
            if chars_within(&mp, &target) {
                assert(path_within(self@.mounts[i as int].mountpoint, path@));
                return true;
            }
            i += 1;
        }
        false
    }

    /// Decides `all_reachable`.
    pub fn is_reachable(&self) -> (r: bool)
        ensures
            r == self@.all_reachable(),
    {
        if !self.can_reach(self.image_path.as_str()) || !self.can_reach(self.config_path.as_str()) {
            return false;
        }
        let mut i: usize = 0;
        while i < self.nwmgr_files.len()
            invariant
                i <= self.nwmgr_files.len(),
                forall|j: int| 0 <= j < i ==> self@.reaches(#[trigger] self@.nwmgr_files[j]),
            decreases self.nwmgr_files.len() - i,
        {
            if !self.can_reach(self.nwmgr_files[i].as_str()) {
                assert(!self@.reaches(self@.nwmgr_files[i as int]));
                return false;
            }
            i += 1;
        }
        let mut k: usize = 0;
        while k < self.boot_backups.len()
            invariant
                k <= self.boot_backups.len(),
                forall|j: int| 0 <= j < self.nwmgr_files.len() ==> self@.reaches(#[trigger] self@.nwmgr_files[j]),
                forall|j: int|
                    0 <= j < k ==> self@.reaches((#[trigger] self@.boot_backups[j]).0)
                        && self@.reaches(self@.boot_backups[j].1),
            decreases self.boot_backups.len() - k,
        {
            if !self.can_reach(self.boot_backups[k].0.as_str()) || !self.can_reach(
                self.boot_backups[k].1.as_str(),
            ) {
                assert(!(self@.reaches(self@.boot_backups[k as int].0) && self@.reaches(
                    self@.boot_backups[k as int].1,
                )));
                return false;
            }
            k += 1;
        }
        true
    }
}


/// The hand-over record while stage 1 fills it in.
#[derive(Debug, PartialEq, Eq)]
pub struct Stage2ConfigBuilder {
    pub flash_device: Option<String>,
    pub drive_size: Option<u64>,
    pub image_path: Option<String>,
    pub config_path: Option<String>,
    pub nwmgr_files: Vec<String>,
    pub wifis: Vec<WifiConfig>,
    pub fail_mode: Option<FailMode>,
    pub log_device: Option<String>,
    pub log_level: Option<LogLevel>,
    pub boot_backups: Vec<(String, String)>,
    pub boot_device: Option<String>,
    pub boot_fstype: Option<String>,
    pub boot_uuid: Option<String>,
    pub kernel_cmdline: Option<String>,
    pub boot_type: Option<BootType>,
    pub mounts: Vec<MountSpec>,
}

impl Stage2ConfigBuilder {
    /// The builder of a record of which nothing is known yet.
    pub fn default() -> (r: Stage2ConfigBuilder)
        ensures
            r.flash_device is None,
            r.drive_size is None,
            r.image_path is None,
            r.config_path is None,
            r.nwmgr_files@.len() == 0,
            r.wifis@.len() == 0,
            r.fail_mode is None,
            r.log_device is None,
            r.log_level is None,
            r.boot_backups@.len() == 0,
            r.boot_device is None,
            r.boot_fstype is None,
            r.boot_uuid is None,
            r.kernel_cmdline is None,
            r.boot_type is None,
            r.mounts@.len() == 0,
    {
        Stage2ConfigBuilder {
            flash_device: None,
            drive_size: None,
            image_path: None,
            config_path: None,
            nwmgr_files: Vec::new(),
            wifis: Vec::new(),
            fail_mode: None,
            log_device: None,
            log_level: None,
            boot_backups: Vec::new(),
            boot_device: None,
            boot_fstype: None,
            boot_uuid: None,
            kernel_cmdline: None,
            boot_type: None,
            mounts: Vec::new(),
        }
    }

    /// Whether everything that a record must hold is there: the flash
    /// device and its size, the image, the configuration, the failure
    /// mode, the log level, the boot partition and its file system, the
    /// kernel command line and the boot type.
    pub open spec fn is_complete(&self) -> bool {
        &&& self.flash_device is Some
        &&& self.drive_size is Some
        &&& self.image_path is Some
        &&& self.config_path is Some
        &&& self.fail_mode is Some
        &&& self.log_level is Some
        &&& self.boot_device is Some
        &&& self.boot_fstype is Some
        &&& self.kernel_cmdline is Some
        &&& self.boot_type is Some
    }

    /// The record of a complete builder.
    pub open spec fn candidate(&self) -> Stage2Config {
        Stage2Config {
            flash_device: self.flash_device->0,
            drive_size: self.drive_size->0,
            image_path: self.image_path->0,
            config_path: self.config_path->0,
            nwmgr_files: self.nwmgr_files,
            wifis: self.wifis,
            fail_mode: self.fail_mode->0,
            log_device: self.log_device,
            log_level: self.log_level->0,
            boot_backups: self.boot_backups,
            boot_device: self.boot_device->0,
            boot_fstype: self.boot_fstype->0,
            boot_uuid: self.boot_uuid,
            kernel_cmdline: self.kernel_cmdline->0,
            boot_type: self.boot_type->0,
            mounts: self.mounts,
        }
    }

    /// The record, where the builder is complete and stage 2 can reach
    /// every file that the record names; `InvParam` otherwise.
    pub fn build(self) -> (r: Result<Stage2Config, MigError>)
        ensures
            match r {
                Ok(c) => self.is_complete() && c == self.candidate() && c@.all_reachable(),
                Err(e) => e.spec_kind() == MigErrorKind::InvParam && !(self.is_complete()
                    && self.candidate()@.all_reachable()),
            },
    {
        match (
            self.flash_device,
            self.drive_size,
            self.image_path,
            self.config_path,
            self.fail_mode,
            self.log_level,
            self.boot_device,
            self.boot_fstype,
            self.kernel_cmdline,
            self.boot_type,
        ) {
            (
                Some(flash_device),
                Some(drive_size),
                Some(image_path),
                Some(config_path),
                Some(fail_mode),
                Some(log_level),
                Some(boot_device),
                Some(boot_fstype),
                Some(kernel_cmdline),
                Some(boot_type),
            ) => {
                let c = Stage2Config {
                    flash_device,
                    drive_size,
                    image_path,
                    config_path,
                    nwmgr_files: self.nwmgr_files,
                    wifis: self.wifis,
                    fail_mode,
                    log_device: self.log_device,
                    log_level,
                    boot_backups: self.boot_backups,
                    boot_device,
                    boot_fstype,
                    boot_uuid: self.boot_uuid,
                    kernel_cmdline,
                    boot_type,
                    mounts: self.mounts,
                };
                if c.is_reachable() {
                    Ok(c)
                } else {
                    Err(
                        MigError::from_remark(
                            MigErrorKind::InvParam,
                            "a file of the stage 2 configuration is out of reach of stage 2",
                        ),
                    )
                }
            },
            _ => Err(
                MigError::from_remark(
                    MigErrorKind::InvParam,
                    "a required field of the stage 2 configuration is missing",
                ),
            ),
        }
    }
}

} // verus!
