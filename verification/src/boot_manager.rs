//! The boot managers: one for each boot loader family, behind one type.
//! A boot manager decides whether a host can be migrated, plans the change
//! of the boot configuration that makes the host start stage 2, and plans
//! how that change is taken back.

use vstd::prelude::*;
use vstd::string::*;

use crate::defs::{BootType, BootTypeView, FailMode, LogLevel, OSArch, UEnvStrategy};
use crate::devices::opt_view;
use crate::ensured_commands::{
    CmdCall, EnsuredCommands, GRUB_REBOOT_CMD, GRUB_UPDT_CMD, MISSING_CMD_REMARK,
};
use crate::error::{MigError, MigErrorKind};
use crate::migrate_info::{pairs_view, MigrateInfo};
use crate::path_info::PathInfo;
use crate::stage2_config::{Stage2Config, Stage2ConfigBuilder};
use crate::text::{chars_of, concat2, decimal, push_decimal, strings_view};

verus! {

/// What the user asked of the migration.
#[derive(Debug, PartialEq, Eq)]
pub struct Config {
    /// What stage 2 does after a failure.
    pub fail_mode: FailMode,
    /// How verbose the log of stage 2 is.
    pub log_level: LogLevel,
    /// The device that stage 2 logs to, if any.
    pub log_device: Option<String>,
    /// What to add to the kernel command line of stage 2.
    pub kernel_opts: String,
    /// The free space in bytes that must remain on the boot partition
    /// after the files of stage 2 are staged.
    pub staging_slack: u64,
}

/// What was found out about the boot files of the host.
#[derive(Debug, PartialEq, Eq)]
pub struct BootProbe {
    /// Whether files can be written where the boot files lie.
    pub boot_writable: bool,
    /// The architecture that the kernel of stage 2 was built for.
    pub kernel_arch: OSArch,
    /// The files that exist, of those that the migration would create or
    /// change: the boot configuration files, the files to stage and the
    /// hand-over record.
    pub existing_files: Vec<String>,
}

/// The verdict on whether a host can be migrated.
#[derive(Clone, Copy, Debug, PartialEq, Eq, Structural)]
pub enum Feasibility {
    /// Nothing stands in the way.
    Feasible,
    /// The boot partition lacks the space for the files of stage 2.
    NoSpace,
    /// `update-grub` was not ensured.
    MissingUpdateGrub,
    /// `grub-reboot` was not ensured.
    MissingGrubReboot,
    /// The boot files cannot be written.
    NotWritable,
    /// The kernel of stage 2 was built for another architecture.
    KernelMismatch,
}

impl Feasibility {
    /// The kind of error that the verdict stands for, if any.
    pub open spec fn error_kind(self) -> Option<MigErrorKind> {
        match self {
            Feasibility::Feasible => None,
            Feasibility::NoSpace => Some(MigErrorKind::InsufficientSpace),
            Feasibility::MissingUpdateGrub => Some(MigErrorKind::ToolMissing),
            Feasibility::MissingGrubReboot => Some(MigErrorKind::ToolMissing),
            Feasibility::NotWritable => Some(MigErrorKind::InvParam),
            Feasibility::KernelMismatch => Some(MigErrorKind::Unsupported),
        }
    }

    /// The error that the verdict stands for, if any. For a missing
    /// command the remark ends in its name.
    pub fn to_error(&self) -> (r: Option<MigError>)
        ensures
            match r {
                Some(e) => self.error_kind() == Some(e.spec_kind()),
                None => self.error_kind() is None,
            },
            *self == Feasibility::MissingUpdateGrub ==> r->0.spec_remark() == MISSING_CMD_REMARK@
                + GRUB_UPDT_CMD@,
            *self == Feasibility::MissingGrubReboot ==> r->0.spec_remark() == MISSING_CMD_REMARK@
                + GRUB_REBOOT_CMD@,
    {
        match self {
            Feasibility::Feasible => None,
            Feasibility::NoSpace => Some(
                MigError::from_remark(
                    MigErrorKind::InsufficientSpace,
                    "not enough free space on the boot partition",
                ),
            ),
            Feasibility::MissingUpdateGrub => {
                let message = concat2(MISSING_CMD_REMARK, GRUB_UPDT_CMD);
                Some(MigError::from_remark(MigErrorKind::ToolMissing, message.as_str()))
            },
            Feasibility::MissingGrubReboot => {
                let message = concat2(MISSING_CMD_REMARK, GRUB_REBOOT_CMD);
                Some(MigError::from_remark(MigErrorKind::ToolMissing, message.as_str()))
            },
            Feasibility::NotWritable => Some(
                MigError::from_remark(MigErrorKind::InvParam, "the boot files cannot be written"),
            ),
            Feasibility::KernelMismatch => Some(
                MigError::from_remark(
                    MigErrorKind::Unsupported,
                    "the kernel of stage 2 does not fit the architecture of the host",
                ),
            ),
        }
    }
}

/// The boot manager of U-Boot.
#[derive(Debug, PartialEq, Eq)]
pub struct UBootManager {
    /// The index of the MMC device that the host starts from.
    pub mmc_index: u8,
    /// How the environment file is composed.
    pub strategy: UEnvStrategy,
    /// The directory of the environment file, below that of the boot files.
    pub bootmgr_subpath: String,
    /// Where the boot files lie, once known.
    pub bootmgr_path: Option<PathInfo>,
}

impl UBootManager {
    /// A boot manager for the given MMC device, strategy and directory
    /// of the boot files.
    pub fn new(mmc_index: u8, strategy: UEnvStrategy, bootmgr_subpath: String) -> (r: UBootManager)
        ensures
            r.mmc_index == mmc_index,
            r.strategy == strategy,
            r.bootmgr_subpath == bootmgr_subpath,
            r.bootmgr_path is None,
    {
        UBootManager { mmc_index, strategy, bootmgr_subpath, bootmgr_path: None }
    }
}

/// The boot manager of GRUB.
#[derive(Debug, PartialEq, Eq)]
pub struct GrubBootManager {
    /// Where the boot files lie, once known.
    pub bootmgr_path: Option<PathInfo>,
}

impl GrubBootManager {
    /// A boot manager for GRUB.
    pub fn new() -> (r: GrubBootManager)
        ensures
            r.bootmgr_path is None,
    {
        GrubBootManager { bootmgr_path: None }
    }
}

/// The boot manager of the Raspberry Pi firmware.
#[derive(Debug, PartialEq, Eq)]
pub struct RaspiBootManager {
    /// Whether the host runs a 64 bit system.
    pub wide: bool,
    /// Where the boot files lie, once known.
    pub bootmgr_path: Option<PathInfo>,
}

impl RaspiBootManager {
    /// A boot manager for `Raspi` or `Raspi64`; `InvParam` for any other
    /// boot type.
    pub fn new(boot_type: BootType) -> (r: Result<RaspiBootManager, MigError>)
        ensures
            match r {
                Ok(m) => (boot_type is Raspi || boot_type is Raspi64) && m.wide
                    == boot_type is Raspi64 && m.bootmgr_path is None,
                Err(e) => !(boot_type is Raspi || boot_type is Raspi64) && e.spec_kind()
                    == MigErrorKind::InvParam,
            },
    {
        match boot_type {
            BootType::Raspi => Ok(RaspiBootManager { wide: false, bootmgr_path: None }),
            BootType::Raspi64 => Ok(RaspiBootManager { wide: true, bootmgr_path: None }),
            _ => Err(
                MigError::from_remark(
                    MigErrorKind::InvParam,
                    "Invalid boot type encountered for RaspiBootManager",
                ),
            ),
        }
    }
}

/// The boot manager of EFI. Nothing of it is implemented.
#[derive(Debug, PartialEq, Eq)]
pub struct EfiBootManager {
    /// Whether the manager was made for a Windows host.
    pub msw_device: bool,
}

impl EfiBootManager {
    /// A boot manager for EFI, on a Windows host or on another.
    pub fn new(msw_device: bool) -> (r: EfiBootManager)
        ensures
            r.msw_device == msw_device,
    {
        EfiBootManager { msw_device }
    }

    /// Whether the manager was made for a Windows host.
    pub fn is_msw_device(&self) -> (r: bool)
        ensures
            r == self.msw_device,
    {
        self.msw_device
    }
}

/// A boot manager, of one of the four families.
#[derive(Debug, PartialEq, Eq)]
pub enum BootManager {
    UBoot(UBootManager),
    Grub(GrubBootManager),
    Efi(EfiBootManager),
    Raspi(RaspiBootManager),
}

/// The boot manager that `from_boot_type` makes for a boot type.
pub open spec fn manager_for(boot_type: BootType) -> BootManager {
    match boot_type {
        BootType::UBoot { mmc_index, uenv_strategy, bootmgr_subpath } => BootManager::UBoot(
            UBootManager {
                mmc_index,
                strategy: uenv_strategy,
                bootmgr_subpath,
                bootmgr_path: None,
            },
        ),
        BootType::Grub => BootManager::Grub(GrubBootManager { bootmgr_path: None }),
        BootType::Efi => BootManager::Efi(EfiBootManager { msw_device: false }),
        BootType::MSWEfi => BootManager::Efi(EfiBootManager { msw_device: true }),
        BootType::Raspi => BootManager::Raspi(RaspiBootManager { wide: false, bootmgr_path: None }),
        _ => BootManager::Raspi(RaspiBootManager { wide: true, bootmgr_path: None }),
    }
}

/// The boot manager for a boot type. There is none for the Windows boot
/// manager.
pub fn from_boot_type(boot_type: BootType) -> (r: BootManager)
    requires
        !(boot_type is MSWBootMgr),
    ensures
        r == manager_for(boot_type),
        r.boot_type_view() == (if boot_type is MSWEfi {
            BootTypeView::Efi
        } else {
            boot_type@
        }),
{
    match boot_type {
        BootType::UBoot { mmc_index, uenv_strategy, bootmgr_subpath } => BootManager::UBoot(
            UBootManager::new(mmc_index, uenv_strategy, bootmgr_subpath),
        ),
        BootType::Grub => BootManager::Grub(GrubBootManager::new()),
        BootType::Efi => BootManager::Efi(EfiBootManager::new(false)),
        BootType::MSWEfi => BootManager::Efi(EfiBootManager::new(true)),
        BootType::Raspi => BootManager::Raspi(RaspiBootManager { wide: false, bootmgr_path: None }),
        BootType::Raspi64 => BootManager::Raspi(RaspiBootManager { wide: true, bootmgr_path: None }),
        BootType::MSWBootMgr => unreached(),
    }
}

/// The free space that the boot partition must have: the sizes of the
/// kernel, the initramfs and the image, and the slack that the user asked
/// for.
pub open spec fn required_space(info: MigrateInfo, config: Config) -> int {
    info.kernel_info.size + info.initrd_info.size + info.os_image_info.size
        + config.staging_slack
}

impl BootManager {
    /// The boot type that the manager reports. The EFI manager reports
    /// `Efi` on every host.
    pub open spec fn boot_type_view(&self) -> BootTypeView {
        match self {
            BootManager::UBoot(m) => BootTypeView::UBoot {
                mmc_index: m.mmc_index,
                uenv_strategy: m.strategy@,
                bootmgr_subpath: m.bootmgr_subpath@,
            },
            BootManager::Grub(_) => BootTypeView::Grub,
            BootManager::Efi(_) => BootTypeView::Efi,
            BootManager::Raspi(m) => if m.wide {
                BootTypeView::Raspi64
            } else {
                BootTypeView::Raspi
            },
        }
    }

    /// Where the boot files lie, once `can_migrate` has found the host
    /// fit.
    pub open spec fn bootmgr_path(&self) -> Option<PathInfo> {
        match self {
            BootManager::UBoot(m) => m.bootmgr_path,
            BootManager::Grub(m) => m.bootmgr_path,
            BootManager::Efi(_) => None,
            BootManager::Raspi(m) => m.bootmgr_path,
        }
    }

    /// The manager with the place of the boot files set.
    pub open spec fn with_bootmgr_path(self, path: PathInfo) -> BootManager {
        match self {
            BootManager::UBoot(m) => BootManager::UBoot(
                UBootManager {
                    mmc_index: m.mmc_index,
                    strategy: m.strategy,
                    bootmgr_subpath: m.bootmgr_subpath,
                    bootmgr_path: Some(path),
                },
            ),
            BootManager::Grub(_) => BootManager::Grub(GrubBootManager { bootmgr_path: Some(path) }),
            BootManager::Efi(m) => BootManager::Efi(m),
            BootManager::Raspi(m) => BootManager::Raspi(
                RaspiBootManager { wide: m.wide, bootmgr_path: Some(path) },
            ),
        }
    }

    /// The boot type of the manager.
    pub fn get_boot_type(&self) -> (r: BootType)
        ensures
            r@ == self.boot_type_view(),
    {
        match self {
            BootManager::UBoot(m) => BootType::UBoot {
                mmc_index: m.mmc_index,
                uenv_strategy: m.strategy.clone(),
                bootmgr_subpath: m.bootmgr_subpath.clone(),
            },
            BootManager::Grub(_) => BootType::Grub,
            BootManager::Efi(_) => BootType::Efi,
            BootManager::Raspi(m) => if m.wide {
                BootType::Raspi64
            } else {
                BootType::Raspi
            },
        }
    }

    /// Where the boot files lie. Known once `can_migrate` has found the
    /// host fit; never for EFI.
    pub fn get_bootmgr_path(&self) -> (r: PathInfo)
        requires
            self.bootmgr_path() is Some,
        ensures
            Some(r) == self.bootmgr_path(),
    {
        match self {
            BootManager::UBoot(m) => match &m.bootmgr_path {
                Some(p) => p.clone(),
                None => unreached(),
            },
            BootManager::Grub(m) => match &m.bootmgr_path {
                Some(p) => p.clone(),
                None => unreached(),
            },
            BootManager::Efi(_) => unreached(),
            BootManager::Raspi(m) => match &m.bootmgr_path {
                Some(p) => p.clone(),
                None => unreached(),
            },
        }
    }

    /// The verdict on the host: in this order, whether the boot partition
    /// has the required space free, whether GRUB has its two commands,
    /// whether the boot files can be written, and whether the kernel of
    /// stage 2 fits the architecture of the host.
    pub open spec fn verdict(
        &self,
        info: MigrateInfo,
        config: Config,
        probe: BootProbe,
        cmds: Map<Seq<char>, Seq<char>>,
    ) -> Feasibility {
        if info.disk_info.boot_path@.fs_free < required_space(info, config) {
            Feasibility::NoSpace
        } else if self is Grub && !cmds.contains_key(GRUB_UPDT_CMD@) {
            Feasibility::MissingUpdateGrub
        } else if self is Grub && !cmds.contains_key(GRUB_REBOOT_CMD@) {
            Feasibility::MissingGrubReboot
        } else if !probe.boot_writable {
            Feasibility::NotWritable
        } else if probe.kernel_arch != info.os_arch {
            Feasibility::KernelMismatch
        } else {
            Feasibility::Feasible
        }
    }

    /// The verdict on the host; `NotImpl` for EFI.
    pub fn feasibility(
        &self,
        mig_info: &MigrateInfo,
        config: &Config,
        probe: &BootProbe,
        cmds: &EnsuredCommands,
    ) -> (r: Result<Feasibility, MigError>)
        ensures
            match r {
                Ok(f) => !(self is Efi) && f == self.verdict(*mig_info, *config, *probe, cmds@),
                Err(e) => self is Efi && e.spec_kind() == MigErrorKind::NotImpl,
            },
    {
        if let BootManager::Efi(_) = self {
            return Err(MigError::from(MigErrorKind::NotImpl));
        }
        let is_grub = match self {
            BootManager::Grub(_) => true,
            _ => false,
        };
        let free = mig_info.disk_info.boot_path.get_fs_free();
        if !has_space(
            free,
            mig_info.kernel_info.size,
            mig_info.initrd_info.size,
            mig_info.os_image_info.size,
            config.staging_slack,
        ) {
            return Ok(Feasibility::NoSpace);
        }
        if is_grub && cmds.get_cmd(GRUB_UPDT_CMD).is_err() {
            return Ok(Feasibility::MissingUpdateGrub);
        }
        if is_grub && cmds.get_cmd(GRUB_REBOOT_CMD).is_err() {
            return Ok(Feasibility::MissingGrubReboot);
        }
        if !probe.boot_writable {
            return Ok(Feasibility::NotWritable);
        }
        if probe.kernel_arch != mig_info.os_arch {
            return Ok(Feasibility::KernelMismatch);
        }
        Ok(Feasibility::Feasible)
    }

    /// Whether the host can be migrated: whether the verdict on it is
    /// `Feasible`. Where it can, the manager takes note of where the boot
    /// files lie, and `s2_cfg` receives the boot type and the device, the
    /// file system and the UUID of the boot partition. Where it cannot,
    /// neither changes. `NotImpl` for EFI, with neither changed.
    pub fn can_migrate(
        &mut self,
        mig_info: &MigrateInfo,
        config: &Config,
        probe: &BootProbe,
        cmds: &EnsuredCommands,
        s2_cfg: &mut Stage2ConfigBuilder,
    ) -> (r: Result<bool, MigError>)
        ensures
            match r {
                Ok(fit) => !(*old(self) is Efi) && fit == (old(self).verdict(
                    *mig_info,
                    *config,
                    *probe,
                    cmds@,
                ) == Feasibility::Feasible),
                Err(e) => *old(self) is Efi && e.spec_kind() == MigErrorKind::NotImpl,
            },
            r == Ok::<bool, MigError>(true) ==> {
                &&& *final(self) == old(self).with_bootmgr_path(mig_info.disk_info.boot_path)
                &&& final(s2_cfg).boot_type matches Some(t) && t@ == old(self).boot_type_view()
                &&& final(s2_cfg).boot_device matches Some(d) && d@
                    == mig_info.disk_info.boot_path@.linux_part
                &&& final(s2_cfg).boot_fstype matches Some(f) && f@
                    == mig_info.disk_info.boot_path@.file_system.linux_name()
                &&& opt_view(final(s2_cfg).boot_uuid) == mig_info.disk_info.boot_path@.part_uuid
                &&& *final(s2_cfg) == (Stage2ConfigBuilder {
                    boot_type: final(s2_cfg).boot_type,
                    boot_device: final(s2_cfg).boot_device,
                    boot_fstype: final(s2_cfg).boot_fstype,
                    boot_uuid: final(s2_cfg).boot_uuid,
                    ..*old(s2_cfg)
                })
            },
            r != Ok::<bool, MigError>(true) ==> *final(self) == *old(self) && *final(s2_cfg)
                == *old(s2_cfg),
    {
        let fit = match self.feasibility(mig_info, config, probe, cmds) {
            Ok(f) => f == Feasibility::Feasible,
            Err(e) => {
                return Err(e);
            },
        };
        if !fit {
            return Ok(false);
        }
        let boot_path = &mig_info.disk_info.boot_path;
        s2_cfg.boot_type = Some(self.get_boot_type());
        s2_cfg.boot_device = Some(String::from_str(boot_path.get_linux_part()));
        s2_cfg.boot_fstype = Some(String::from_str(boot_path.get_linux_fstype()));
        s2_cfg.boot_uuid = match boot_path.get_partuuid() {
            Some(u) => Some(String::from_str(u)),
            None => None,
        };
        match self {
            BootManager::UBoot(m) => {
                m.bootmgr_path = Some(boot_path.clone());
            },
            BootManager::Grub(m) => {
                m.bootmgr_path = Some(boot_path.clone());
            },
            BootManager::Efi(_) => {},
            BootManager::Raspi(m) => {
                m.bootmgr_path = Some(boot_path.clone());
            },
        }
        Ok(true)
    }
}

/// Whether `free` is at least the sum of the other four.
fn has_space(free: u64, a: u64, b: u64, c: u64, d: u64) -> (r: bool)
    ensures
        r == (free >= a + b + c + d),
{
    let ab = match a.checked_add(b) {
        Some(v) => v,
        None => {
            return false;
        },
    };
    let abc = match ab.checked_add(c) {
        Some(v) => v,
        None => {
            return false;
        },
    };
    match abc.checked_add(d) {
        Some(v) => free >= v,
        None => false,
    }
}


/// What is added to the path of a file to name its backup.
pub const BACKUP_SUFFIX: &'static str = ".bak";

/// The name under which the kernel of stage 2 is staged.
pub const MIG_KERNEL_NAME: &'static str = "balena.zImage";

/// The name under which the initramfs of stage 2 is staged.
pub const MIG_INITRD_NAME: &'static str = "balena.initramfs.cpio.gz";

/// The firmware configuration of a Raspberry Pi.
pub const RASPI_CONFIG_FILE: &'static str = "config.txt";

/// The kernel command line of a Raspberry Pi.
pub const RASPI_CMDLINE_FILE: &'static str = "cmdline.txt";

/// What is added to the firmware configuration of a Raspberry Pi.
pub const RASPI_CONFIG_ADDITION: &'static str = "initramfs balena.initramfs.cpio.gz followkernel\n";

/// The environment file of U-Boot.
pub const UENV_FILE: &'static str = "uEnv.txt";

/// The file that holds the GRUB menu entry of stage 2.
pub const GRUB_ENTRY_FILE: &'static str = "/etc/grub.d/43_balena-migrate";

/// The name of the GRUB menu entry of stage 2.
pub const GRUB_ENTRY_NAME: &'static str = "balena-migrate";

/// The view of a command call.
pub struct CmdCallView {
    pub program: Seq<char>,
    pub args: Seq<Seq<char>>,
    pub trim_stdout: bool,
}

/// The mathematical content of a command call.
pub open spec fn call_view(c: CmdCall) -> CmdCallView {
    CmdCallView {
        program: c.program@,
        args: Seq::new(c.args@.len(), |i: int| c.args@[i]@),
        trim_stdout: c.trim_stdout,
    }
}

/// A change to one boot configuration file.
#[derive(Debug, PartialEq, Eq)]
pub struct FileChange {
    /// The file.
    pub path: String,
    /// The text to write.
    pub text: String,
    /// Whether the text is added to what the file holds; else it takes
    /// its place.
    pub append: bool,
}

/// The mathematical content of a `FileChange`.
pub struct FileChangeView {
    pub path: Seq<char>,
    pub text: Seq<char>,
    pub append: bool,
}

impl View for FileChange {
    type V = FileChangeView;

    open spec fn view(&self) -> FileChangeView {
        FileChangeView { path: self.path@, text: self.text@, append: self.append }
    }
}

/// The views of a sequence of changes.
pub open spec fn changes_view(v: Seq<FileChange>) -> Seq<FileChangeView> {
    Seq::new(v.len(), |i: int| v[i]@)
}

/// One step of the change of the boot configuration.
#[derive(Debug, PartialEq, Eq)]
pub enum SetupStep {
    /// Copy the file to its backup.
    Backup { path: String, to: String },
    /// Write the text to the file, in place of what it holds. `backup`
    /// names the backup of the file, where one was made.
    Write { path: String, text: String, backup: Option<String> },
    /// Add the text to the end of the file. `backup` names the backup of
    /// the file.
    Append { path: String, text: String, backup: Option<String> },
    /// Run the command.
    Run { call: CmdCall },
}

/// The mathematical content of a `SetupStep`.
pub enum SetupStepView {
    Backup { path: Seq<char>, to: Seq<char> },
    Write { path: Seq<char>, text: Seq<char>, backup: Option<Seq<char>> },
    Append { path: Seq<char>, text: Seq<char>, backup: Option<Seq<char>> },
    Run { call: CmdCallView },
}

impl View for SetupStep {
    type V = SetupStepView;

    open spec fn view(&self) -> SetupStepView {
        match self {
            SetupStep::Backup { path, to } => SetupStepView::Backup { path: path@, to: to@ },
            SetupStep::Write { path, text, backup } => SetupStepView::Write {
                path: path@,
                text: text@,
                backup: opt_view(*backup),
            },
            SetupStep::Append { path, text, backup } => SetupStepView::Append {
                path: path@,
                text: text@,
                backup: opt_view(*backup),
            },
            SetupStep::Run { call } => SetupStepView::Run { call: call_view(*call) },
        }
    }
}

/// The views of a sequence of steps.
pub open spec fn steps_view(v: Seq<SetupStep>) -> Seq<SetupStepView> {
    Seq::new(v.len(), |i: int| v[i]@)
}

/// One step of taking a change of the boot configuration back.
#[derive(Debug, PartialEq, Eq)]
pub enum UndoStep {
    /// Copy the backup `from` over the file `to`.
    Restore { from: String, to: String },
    /// Remove the file, which the change had created.
    Remove { path: String },
}

/// The mathematical content of an `UndoStep`.
pub enum UndoStepView {
    Restore { from: Seq<char>, to: Seq<char> },
    Remove { path: Seq<char> },
}

impl View for UndoStep {
    type V = UndoStepView;

    open spec fn view(&self) -> UndoStepView {
        match self {
            UndoStep::Restore { from, to } => UndoStepView::Restore { from: from@, to: to@ },
            UndoStep::Remove { path } => UndoStepView::Remove { path: path@ },
        }
    }
}

impl Clone for UndoStep {
    fn clone(&self) -> (r: Self)
        ensures
            r == *self,
    {
        match self {
            UndoStep::Restore { from, to } => UndoStep::Restore {
                from: from.clone(),
                to: to.clone(),
            },
            UndoStep::Remove { path } => UndoStep::Remove { path: path.clone() },
        }
    }
}

/// The views of a sequence of undo steps.
pub open spec fn undos_view(v: Seq<UndoStep>) -> Seq<UndoStepView> {
    Seq::new(v.len(), |i: int| v[i]@)
}

/// The path of the entry `name` of the directory `dir`.
pub open spec fn join_path(dir: Seq<char>, name: Seq<char>) -> Seq<char> {
    if name.len() == 0 {
        dir
    } else if dir.len() > 0 && dir.last() == '/' {
        dir + name
    } else {
        dir + "/"@ + name
    }
}

/// The path of the entry `name` of the directory `dir`.
pub fn path_join(dir: &str, name: &str) -> (r: String)
    ensures
        r@ == join_path(dir@, name@),
{
    let d = chars_of(dir);
    let n = chars_of(name);
    let mut r = String::from_str(dir);
    if n.len() == 0 {
        return r;
    }
    if !(d.len() > 0 && d[d.len() - 1] == '/') {
        r.append("/");
    }
    r.append(name);
    r
}

/// The text of the U-Boot environment file.
pub open spec fn uenv_text(mmc_index: u8, strategy: crate::defs::UEnvStrategyView, opts: Seq<char>)
    -> Seq<char> {
    "mmcdev="@ + decimal(mmc_index as nat) + "\n"@ + (match strategy {
        crate::defs::UEnvStrategyView::UName(u) => "uname_r="@ + u + "\n"@,
        crate::defs::UEnvStrategyView::Manual => Seq::<char>::empty(),
    }) + "cmdline="@ + opts + "\n"@
}

/// The text of the GRUB menu entry of stage 2.
pub open spec fn grub_entry_text(boot_dir: Seq<char>, opts: Seq<char>) -> Seq<char> {
    "menuentry \"balena-migrate\" {\n\tlinux "@ + join_path(boot_dir, MIG_KERNEL_NAME@) + " "@
        + opts + "\n\tinitrd "@ + join_path(boot_dir, MIG_INITRD_NAME@) + "\n}\n"@
}

/// The changes that a boot manager of the given type makes to the boot
/// configuration files, for boot files in `boot_dir` and the kernel
/// command line `opts`.
///
/// The Raspberry Pi firmware gets a line added to its configuration and
/// a new kernel command line; U-Boot a new environment file, in its
/// directory below `boot_dir`; GRUB a menu entry of its own.
pub open spec fn changes_spec(bt: BootTypeView, boot_dir: Seq<char>, opts: Seq<char>) -> Seq<
    FileChangeView,
> {
    match bt {
        BootTypeView::UBoot { mmc_index, uenv_strategy, bootmgr_subpath } => seq![
            FileChangeView {
                path: join_path(join_path(boot_dir, bootmgr_subpath), UENV_FILE@),
                text: uenv_text(mmc_index, uenv_strategy, opts),
                append: false,
            },
        ],
        BootTypeView::Grub => seq![
            FileChangeView {
                path: GRUB_ENTRY_FILE@,
                text: grub_entry_text(boot_dir, opts),
                append: false,
            },
        ],
        BootTypeView::Raspi | BootTypeView::Raspi64 => seq![
            FileChangeView {
                path: join_path(boot_dir, RASPI_CONFIG_FILE@),
                text: RASPI_CONFIG_ADDITION@,
                append: true,
            },
            FileChangeView {
                path: join_path(boot_dir, RASPI_CMDLINE_FILE@),
                text: opts + "\n"@,
                append: false,
            },
        ],
        _ => Seq::empty(),
    }
}

/// The steps that make one change: for a file that exists, its backup
/// first, to the path of the file with `BACKUP_SUFFIX` added. A file
/// that does not exist is written, whatever the change says.
pub open spec fn steps_for(c: FileChangeView, existed: bool) -> Seq<SetupStepView> {
    if existed {
        seq![
            SetupStepView::Backup { path: c.path, to: c.path + BACKUP_SUFFIX@ },
            if c.append {
                SetupStepView::Append {
                    path: c.path,
                    text: c.text,
                    backup: Some(c.path + BACKUP_SUFFIX@),
                }
            } else {
                SetupStepView::Write {
                    path: c.path,
                    text: c.text,
                    backup: Some(c.path + BACKUP_SUFFIX@),
                }
            },
        ]
    } else {
        seq![SetupStepView::Write { path: c.path, text: c.text, backup: None }]
    }
}

/// The steps that make the first `n` changes, in order.
pub open spec fn file_steps(changes: Seq<FileChangeView>, existing: Seq<Seq<char>>, n: int) -> Seq<
    SetupStepView,
>
    decreases n,
{
    if n <= 0 {
        Seq::empty()
    } else {
        file_steps(changes, existing, n - 1) + steps_for(
            changes[n - 1],
            existing.contains(changes[n - 1].path),
        )
    }
}

/// The backups that the first `n` changes make: each file that exists,
/// with its backup.
pub open spec fn backups_spec(changes: Seq<FileChangeView>, existing: Seq<Seq<char>>, n: int)
    -> Seq<(Seq<char>, Seq<char>)>
    decreases n,
{
    if n <= 0 {
        Seq::empty()
    } else if existing.contains(changes[n - 1].path) {
        backups_spec(changes, existing, n - 1).push(
            (changes[n - 1].path, changes[n - 1].path + BACKUP_SUFFIX@),
        )
    } else {
        backups_spec(changes, existing, n - 1)
    }
}

/// The commands that a boot manager of the given type runs after its
/// changes: for GRUB, `update-grub` and then `grub-reboot` with the name
/// of the menu entry, which makes that entry the choice of the next start
/// only.
pub open spec fn command_steps(bt: BootTypeView, cmds: Map<Seq<char>, Seq<char>>) -> Seq<
    SetupStepView,
> {
    match bt {
        BootTypeView::Grub => seq![
            SetupStepView::Run {
                call: CmdCallView {
                    program: cmds[GRUB_UPDT_CMD@],
                    args: Seq::empty(),
                    trim_stdout: false,
                },
            },
            SetupStepView::Run {
                call: CmdCallView {
                    program: cmds[GRUB_REBOOT_CMD@],
                    args: seq![GRUB_ENTRY_NAME@],
                    trim_stdout: false,
                },
            },
        ],
        _ => Seq::empty(),
    }
}

/// The whole change of the boot configuration: the file changes, then
/// the commands.
pub open spec fn setup_plan(
    bt: BootTypeView,
    boot_dir: Seq<char>,
    opts: Seq<char>,
    existing: Seq<Seq<char>>,
    cmds: Map<Seq<char>, Seq<char>>,
) -> Seq<SetupStepView> {
    file_steps(
        changes_spec(bt, boot_dir, opts),
        existing,
        changes_spec(bt, boot_dir, opts).len() as int,
    ) + command_steps(bt, cmds)
}

/// What takes one step back: a file that was written or added to is
/// restored from its backup, or removed where it had none.
pub open spec fn undo_of(s: SetupStepView) -> Seq<UndoStepView> {
    match s {
        SetupStepView::Write { path, text, backup } => match backup {
            Some(b) => seq![UndoStepView::Restore { from: b, to: path }],
            None => seq![UndoStepView::Remove { path }],
        },
        SetupStepView::Append { path, text, backup } => match backup {
            Some(b) => seq![UndoStepView::Restore { from: b, to: path }],
            None => seq![UndoStepView::Remove { path }],
        },
        _ => Seq::empty(),
    }
}

/// What takes the first `done` steps of a plan back: the last of them
/// first.
pub open spec fn rollback_spec(plan: Seq<SetupStepView>, done: int) -> Seq<UndoStepView>
    decreases done,
{
    if done <= 0 {
        Seq::empty()
    } else {
        undo_of(plan[done - 1]) + rollback_spec(plan, done - 1)
    }
}

/// What restores the first `n` of the backed-up files: the last of them
/// first, each from its backup.
pub open spec fn restore_spec(backups: Seq<(Seq<char>, Seq<char>)>, n: int) -> Seq<UndoStepView>
    decreases n,
{
    if n <= 0 {
        Seq::empty()
    } else {
        seq![UndoStepView::Restore { from: backups[n - 1].1, to: backups[n - 1].0 }]
            + restore_spec(backups, n - 1)
    }
}

/// What takes the first `done` steps of `plan` back, or all of them where
/// `done` is more than there are: see `rollback_spec`.
pub fn rollback(plan: &Vec<SetupStep>, done: usize) -> (r: Vec<UndoStep>)
    ensures
        undos_view(r@) == rollback_spec(
            steps_view(plan@),
            if done <= plan.len() {
                done as int
            } else {
                plan.len() as int
            },
        ),
{
    let top = if done <= plan.len() {
        done
    } else {
        plan.len()
    };
    let mut out: Vec<UndoStep> = Vec::new();
    let mut k: usize = top;
    assert(undos_view(out@) + rollback_spec(steps_view(plan@), k as int) =~= rollback_spec(
        steps_view(plan@),
        top as int,
    ));
    while k > 0
        invariant
            k <= top <= plan.len(),
            undos_view(out@) + rollback_spec(steps_view(plan@), k as int) == rollback_spec(
                steps_view(plan@),
                top as int,
            ),
        decreases k,
    {
        let ghost before = undos_view(out@);
        let ghost rest = rollback_spec(steps_view(plan@), k - 1);
        match &plan[k - 1] {
            SetupStep::Write { path, text, backup } => {
                match backup {
                    Some(b) => out.push(UndoStep::Restore { from: b.clone(), to: path.clone() }),
                    None => out.push(UndoStep::Remove { path: path.clone() }),
                }
            },
            SetupStep::Append { path, text, backup } => {
                match backup {
                    Some(b) => out.push(UndoStep::Restore { from: b.clone(), to: path.clone() }),
                    None => out.push(UndoStep::Remove { path: path.clone() }),
                }
            },
            _ => {},
        }
        proof {
            assert(undos_view(out@) =~= before + undo_of(steps_view(plan@)[k - 1]));
            assert(undos_view(out@) + rest =~= before + (undo_of(steps_view(plan@)[k - 1]) + rest));
        }
        k -= 1;
    }
    assert(undos_view(out@) + Seq::<UndoStepView>::empty() =~= undos_view(out@));
    out
}


/// Whether `v` holds a string with the characters of `s`.
pub fn contains_str(v: &Vec<String>, s: &String) -> (r: bool)
    ensures
        r == strings_view(v@).contains(s@),
{
    let mut i: usize = 0;
    while i < v.len()
        invariant
            i <= v.len(),
            forall|j: int| 0 <= j < i ==> strings_view(v@)[j] != s@,
        decreases v.len() - i,
    {
        if v[i] == *s {
            assert(strings_view(v@)[i as int] == s@);
            return true;
        }
        i += 1;
    }
    false
}

/// The text of the U-Boot environment file.
fn make_uenv_text(mmc_index: u8, strategy: &UEnvStrategy, opts: &str) -> (r: String)
    ensures
        r@ == uenv_text(mmc_index, strategy@, opts@),
{
    let mut r = String::from_str("mmcdev=");
    push_decimal(&mut r, mmc_index as u64);
    r.append("\n");
    match strategy {
        UEnvStrategy::UName(u) => {
            r.append("uname_r=");
            r.append(u.as_str());
            r.append("\n");
            assert(r@ =~= "mmcdev="@ + decimal(mmc_index as nat) + "\n"@ + ("uname_r="@ + u@
                + "\n"@));
        },
        UEnvStrategy::Manual => {
            assert(r@ =~= "mmcdev="@ + decimal(mmc_index as nat) + "\n"@ + Seq::<char>::empty());
        },
    }
    r.append("cmdline=");
    r.append(opts);
    r.append("\n");
    r
}

/// The text of the GRUB menu entry of stage 2.
fn make_grub_entry_text(boot_dir: &str, opts: &str) -> (r: String)
    ensures
        r@ == grub_entry_text(boot_dir@, opts@),
{
    let kernel = path_join(boot_dir, MIG_KERNEL_NAME);
    let initrd = path_join(boot_dir, MIG_INITRD_NAME);
    let mut r = String::from_str("menuentry \"balena-migrate\" {\n\tlinux ");
    r.append(kernel.as_str());
    r.append(" ");
    r.append(opts);
    r.append("\n\tinitrd ");
    r.append(initrd.as_str());
    r.append("\n}\n");
    r
}

/// The first of the two commands of GRUB that was not ensured:
/// `update-grub`, or else `grub-reboot`.
pub open spec fn missing_grub_tool(cmds: Map<Seq<char>, Seq<char>>) -> Seq<char> {
    if !cmds.contains_key(GRUB_UPDT_CMD@) {
        GRUB_UPDT_CMD@
    } else {
        GRUB_REBOOT_CMD@
    }
}

impl BootManager {
    /// Why `setup` fails, if it does: `NotImpl` for EFI; `InvParam` where
    /// `can_migrate` has not found the host fit before; `ToolMissing`
    /// where GRUB lacks one of its two commands.
    pub open spec fn setup_error(&self, cmds: Map<Seq<char>, Seq<char>>) -> Option<MigErrorKind> {
        if self is Efi {
            Some(MigErrorKind::NotImpl)
        } else if self.bootmgr_path() is None {
            Some(MigErrorKind::InvParam)
        } else if self is Grub && !(cmds.contains_key(GRUB_UPDT_CMD@) && cmds.contains_key(
            GRUB_REBOOT_CMD@,
        )) {
            Some(MigErrorKind::ToolMissing)
        } else {
            None
        }
    }

    /// The changes that the manager makes to the boot configuration files.
    fn changes(&self, boot_dir: &str, opts: &str) -> (r: Vec<FileChange>)
        ensures
            changes_view(r@) == changes_spec(self.boot_type_view(), boot_dir@, opts@),
    {
        let mut r: Vec<FileChange> = Vec::new();
        match self {
            BootManager::UBoot(m) => {
                let dir = path_join(boot_dir, m.bootmgr_subpath.as_str());
                r.push(
                    FileChange {
                        path: path_join(dir.as_str(), UENV_FILE),
                        text: make_uenv_text(m.mmc_index, &m.strategy, opts),
                        append: false,
                    },
                );
            },
            BootManager::Grub(_) => {
                r.push(
                    FileChange {
                        path: String::from_str(GRUB_ENTRY_FILE),
                        text: make_grub_entry_text(boot_dir, opts),
                        append: false,
                    },
                );
            },
            BootManager::Efi(_) => {},
            BootManager::Raspi(_) => {
                r.push(
                    FileChange {
                        path: path_join(boot_dir, RASPI_CONFIG_FILE),
                        text: String::from_str(RASPI_CONFIG_ADDITION),
                        append: true,
                    },
                );
                r.push(
                    FileChange {
                        path: path_join(boot_dir, RASPI_CMDLINE_FILE),
                        text: concat2(opts, "\n"),
                        append: false,
                    },
                );
            },
        }
        assert(changes_view(r@) =~= changes_spec(self.boot_type_view(), boot_dir@, opts@));
        r
    }

    /// Plans the change of the boot configuration that makes the host
    /// start stage 2 with the kernel command line `kernel_opts`: see
    /// `setup_plan`. The caller carries the steps out in order.
    ///
    /// `s2_cfg` receives the kernel command line and, behind the backups
    /// that it holds already, each file that the plan backs up, with its
    /// backup. On failure (see `setup_error`) it is unchanged, and the
    /// remark of a `ToolMissing` error ends in the name of the command that
    /// is missing. The manager itself never changes.
    pub fn setup(
        &mut self,
        probe: &BootProbe,
        cmds: &EnsuredCommands,
        s2_cfg: &mut Stage2ConfigBuilder,
        kernel_opts: &str,
    ) -> (r: Result<Vec<SetupStep>, MigError>)
        ensures
            *final(self) == *old(self),
            match r {
                Ok(plan) => {
                    &&& old(self).setup_error(cmds@) is None
                    &&& steps_view(plan@) == setup_plan(
                        old(self).boot_type_view(),
                        old(self).bootmgr_path()->0@.path,
                        kernel_opts@,
                        strings_view(probe.existing_files@),
                        cmds@,
                    )
                    &&& pairs_view(final(s2_cfg).boot_backups@) == pairs_view(
                        old(s2_cfg).boot_backups@,
                    ) + backups_spec(
                        changes_spec(
                            old(self).boot_type_view(),
                            old(self).bootmgr_path()->0@.path,
                            kernel_opts@,
                        ),
                        strings_view(probe.existing_files@),
                        changes_spec(
                            old(self).boot_type_view(),
                            old(self).bootmgr_path()->0@.path,
                            kernel_opts@,
                        ).len() as int,
                    )
                    &&& final(s2_cfg).kernel_cmdline matches Some(c) && c@ == kernel_opts@
                    &&& *final(s2_cfg) == (Stage2ConfigBuilder {
                        boot_backups: final(s2_cfg).boot_backups,
                        kernel_cmdline: final(s2_cfg).kernel_cmdline,
                        ..*old(s2_cfg)
                    })
                },
                Err(e) => old(self).setup_error(cmds@) == Some(e.spec_kind()) && *final(s2_cfg)
                    == *old(s2_cfg) && (e.spec_kind() == MigErrorKind::ToolMissing
                    ==> e.spec_remark() == MISSING_CMD_REMARK@ + missing_grub_tool(cmds@)),
            },
    {
        if let BootManager::Efi(_) = self {
            return Err(MigError::from(MigErrorKind::NotImpl));
        }
        let boot_dir = match self {
            BootManager::UBoot(m) => match &m.bootmgr_path {
                Some(p) => Some(String::from_str(p.get_path())),
                None => None,
            },
            BootManager::Grub(m) => match &m.bootmgr_path {
                Some(p) => Some(String::from_str(p.get_path())),
                None => None,
            },
            BootManager::Efi(_) => None,
            BootManager::Raspi(m) => match &m.bootmgr_path {
                Some(p) => Some(String::from_str(p.get_path())),
                None => None,
            },
        };
        let boot_dir = match boot_dir {
            Some(d) => d,
            None => {
                return Err(
                    MigError::from_remark(
                        MigErrorKind::InvParam,
                        "the boot manager has not examined the host yet",
                    ),
                );
            },
        };
        let is_grub = match self {
            BootManager::Grub(_) => true,
            _ => false,
        };
        let mut commands: Vec<SetupStep> = Vec::new();
        if is_grub {
            let no_args: Vec<&str> = Vec::new();
            let update = match cmds.call_cmd(GRUB_UPDT_CMD, no_args.as_slice(), false) {
                Ok(c) => c,
                Err(_) => {
                    let message = concat2(MISSING_CMD_REMARK, GRUB_UPDT_CMD);
                    return Err(MigError::from_remark(MigErrorKind::ToolMissing, message.as_str()));
                },
            };
            let mut entry: Vec<&str> = Vec::new();
            entry.push(GRUB_ENTRY_NAME);
            let reboot = match cmds.call_cmd(GRUB_REBOOT_CMD, entry.as_slice(), false) {
                Ok(c) => c,
                Err(_) => {
                    let message = concat2(MISSING_CMD_REMARK, GRUB_REBOOT_CMD);
                    return Err(MigError::from_remark(MigErrorKind::ToolMissing, message.as_str()));
                },
            };
            assert(call_view(update).args =~= Seq::<Seq<char>>::empty());
            assert(call_view(reboot).args =~= seq![GRUB_ENTRY_NAME@]);
            commands.push(SetupStep::Run { call: update });
            commands.push(SetupStep::Run { call: reboot });
        }
        assert(steps_view(commands@) =~= command_steps(self.boot_type_view(), cmds@));
        let changes = self.changes(boot_dir.as_str(), kernel_opts);
        let ghost cs = changes_view(changes@);
        let ghost existing = strings_view(probe.existing_files@);
        let ghost old_backups = pairs_view(s2_cfg.boot_backups@);
        let mut plan: Vec<SetupStep> = Vec::new();
        let mut i: usize = 0;
        assert(steps_view(plan@) =~= file_steps(cs, existing, 0));
        assert(pairs_view(s2_cfg.boot_backups@) =~= old_backups + backups_spec(cs, existing, 0));
        while i < changes.len()
            invariant
                i <= changes.len(),
                cs == changes_view(changes@),
                existing == strings_view(probe.existing_files@),
                steps_view(plan@) == file_steps(cs, existing, i as int),
                pairs_view(s2_cfg.boot_backups@) == old_backups + backups_spec(
                    cs,
                    existing,
                    i as int,
                ),
                *s2_cfg == (Stage2ConfigBuilder {
                    boot_backups: s2_cfg.boot_backups,
                    ..*old(s2_cfg)
                }),
            decreases changes.len() - i,
        {
            let c = &changes[i];
            let ghost plan_before = steps_view(plan@);
            let ghost backups_before = pairs_view(s2_cfg.boot_backups@);
            let existed = contains_str(&probe.existing_files, &c.path);
            if existed {
                let backup = concat2(c.path.as_str(), BACKUP_SUFFIX);
                plan.push(SetupStep::Backup { path: c.path.clone(), to: backup.clone() });
                if c.append {
                    plan.push(
                        SetupStep::Append {
                            path: c.path.clone(),
                            text: c.text.clone(),
                            backup: Some(backup.clone()),
                        },
                    );
                } else {
                    plan.push(
                        SetupStep::Write {
                            path: c.path.clone(),
                            text: c.text.clone(),
                            backup: Some(backup.clone()),
                        },
                    );
                }
                s2_cfg.boot_backups.push((c.path.clone(), backup));
                proof {
                    assert(pairs_view(s2_cfg.boot_backups@) =~= backups_before.push(
                        (cs[i as int].path, cs[i as int].path + BACKUP_SUFFIX@),
                    ));
                    assert(pairs_view(s2_cfg.boot_backups@) =~= old_backups + backups_spec(
                        cs,
                        existing,
                        i + 1,
                    ));
                }
            } else {
                plan.push(
                    SetupStep::Write { path: c.path.clone(), text: c.text.clone(), backup: None },
                );
            }
            proof {
                assert(steps_view(plan@) =~= plan_before + steps_for(cs[i as int], existed));
            }
            i += 1;
        }
        let ghost files = steps_view(plan@);
        while commands.len() > 0
            invariant
                steps_view(plan@) + steps_view(commands@) == files + command_steps(
                    self.boot_type_view(),
                    cmds@,
                ),
            decreases commands.len(),
        {
            let ghost plan_before = steps_view(plan@);
            let ghost cmds_before = steps_view(commands@);
            let step = commands.remove(0);
            plan.push(step);
            proof {
                assert(steps_view(plan@) =~= plan_before.push(cmds_before[0]));
                assert(steps_view(commands@) =~= cmds_before.skip(1));
                assert(steps_view(plan@) + steps_view(commands@) =~= plan_before + cmds_before);
            }
        }
        assert(steps_view(plan@) + steps_view(commands@) =~= steps_view(plan@));
        s2_cfg.kernel_cmdline = Some(String::from_str(kernel_opts));
        Ok(plan)
    }

    /// Plans how stage 2 takes the change of the boot configuration back
    /// after a failure: every file that the record lists as changed is
    /// restored from its backup, the last one first. The same for every
    /// boot manager.
    pub fn restore(&self, config: &Stage2Config) -> (r: Vec<UndoStep>)
        ensures
            undos_view(r@) == restore_spec(
                pairs_view(config.boot_backups@),
                config.boot_backups@.len() as int,
            ),
    {
        restore_plan(&config.boot_backups)
    }
}

/// What restores the backed-up files: the last of them first, each from
/// its backup.
pub fn restore_plan(backups: &Vec<(String, String)>) -> (r: Vec<UndoStep>)
    ensures
        undos_view(r@) == restore_spec(pairs_view(backups@), backups@.len() as int),
{
    let mut out: Vec<UndoStep> = Vec::new();
    let mut k: usize = backups.len();
    assert(undos_view(out@) + restore_spec(pairs_view(backups@), k as int) =~= restore_spec(
        pairs_view(backups@),
        backups@.len() as int,
    ));
    while k > 0
        invariant
            k <= backups.len(),
            undos_view(out@) + restore_spec(pairs_view(backups@), k as int) == restore_spec(
                pairs_view(backups@),
                backups@.len() as int,
            ),
        decreases k,
    {
        let ghost before = undos_view(out@);
        let ghost rest = restore_spec(pairs_view(backups@), k - 1);
        out.push(UndoStep::Restore { from: backups[k - 1].1.clone(), to: backups[k - 1].0.clone() });
        proof {
            let step = UndoStepView::Restore {
                from: pairs_view(backups@)[k - 1].1,
                to: pairs_view(backups@)[k - 1].0,
            };
            assert(undos_view(out@) =~= before.push(step));
            assert(undos_view(out@) + rest =~= before + (seq![step] + rest));
        }
        k -= 1;
    }
    assert(undos_view(out@) + Seq::<UndoStepView>::empty() =~= undos_view(out@));
    out
}

} // verus!
