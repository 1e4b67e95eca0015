//! The facts that stage 1 gathers about the host and about the files of
//! the migration.
//!
//! The facts are gathered in a `MigrateInfoBuilder`, in which any of them
//! may still be missing. `finish` turns a builder that holds all the
//! required facts into a `MigrateInfo`, in which none can be missing.

use vstd::prelude::*;
use vstd::string::*;

use crate::defs::OSArch;
use crate::devices::{clone_opt, opt_view};
use crate::error::{MigError, MigErrorKind};
use crate::path_info::{PathInfo, PathInfoView};

verus! {

/// A file of the migration: where it is and how large.
#[derive(Debug, PartialEq, Eq)]
pub struct FileInfo {
    pub path: String,
    pub size: u64,
}

/// The mathematical content of a `FileInfo`.
pub struct FileInfoView {
    pub path: Seq<char>,
    pub size: nat,
}

impl View for FileInfo {
    type V = FileInfoView;

    open spec fn view(&self) -> FileInfoView {
        FileInfoView { path: self.path@, size: self.size as nat }
    }
}

impl Clone for FileInfo {
    fn clone(&self) -> (r: Self)
        ensures
            r == *self,
    {
        FileInfo { path: self.path.clone(), size: self.size }
    }
}

/// The views of a sequence of files.
pub open spec fn files_view(v: Seq<FileInfo>) -> Seq<FileInfoView> {
    Seq::new(v.len(), |i: int| v[i]@)
}

/// A wireless network that the appliance is to join.
#[derive(Debug, PartialEq, Eq)]
pub struct WifiConfig {
    pub ssid: String,
    pub psk: Option<String>,
}

/// The mathematical content of a `WifiConfig`.
pub struct WifiConfigView {
    pub ssid: Seq<char>,
    pub psk: Option<Seq<char>>,
}

impl View for WifiConfig {
    type V = WifiConfigView;

    open spec fn view(&self) -> WifiConfigView {
        WifiConfigView { ssid: self.ssid@, psk: opt_view(self.psk) }
    }
}

impl Clone for WifiConfig {
    fn clone(&self) -> (r: Self)
        ensures
            r == *self,
    {
        WifiConfig { ssid: self.ssid.clone(), psk: clone_opt(&self.psk) }
    }
}

/// The views of a sequence of wireless networks.
pub open spec fn wifis_view(v: Seq<WifiConfig>) -> Seq<WifiConfigView> {
    Seq::new(v.len(), |i: int| v[i]@)
}

/// The views of a sequence of pairs of strings.
pub open spec fn pairs_view(v: Seq<(String, String)>) -> Seq<(Seq<char>, Seq<char>)> {
    Seq::new(v.len(), |i: int| (v[i].0@, v[i].1@))
}

/// The drive that is to be flashed and the paths on it that matter.
#[derive(Debug, PartialEq, Eq)]
pub struct DiskInfo {
    /// The device of the drive.
    pub drive_dev: String,
    /// Size of the drive in bytes.
    pub drive_size: u64,
    /// The directory of the boot files.
    pub boot_path: PathInfo,
    /// The root of the file system.
    pub root_path: PathInfo,
    /// The directory in which the files of the migration lie.
    pub work_path: PathInfo,
    /// The mount point of the EFI system partition, where there is one.
    pub efi_path: Option<PathInfo>,
}

/// The mathematical content of a `DiskInfo`.
pub struct DiskInfoView {
    pub drive_dev: Seq<char>,
    pub drive_size: nat,
    pub boot_path: PathInfoView,
    pub root_path: PathInfoView,
    pub work_path: PathInfoView,
    pub efi_path: Option<PathInfoView>,
}

/// The view of an optional resolved path.
pub open spec fn opt_path_view(o: Option<PathInfo>) -> Option<PathInfoView> {
    match o {
        Some(p) => Some(p@),
        None => None,
    }
}

impl View for DiskInfo {
    type V = DiskInfoView;

    open spec fn view(&self) -> DiskInfoView {
        DiskInfoView {
            drive_dev: self.drive_dev@,
            drive_size: self.drive_size as nat,
            boot_path: self.boot_path@,
            root_path: self.root_path@,
            work_path: self.work_path@,
            efi_path: opt_path_view(self.efi_path),
        }
    }
}

/// The facts of stage 1 while they are gathered.
#[derive(Debug, PartialEq, Eq)]
pub struct MigrateInfoBuilder {
    pub os_name: Option<String>,
    pub os_arch: Option<OSArch>,
    pub efi_boot: Option<bool>,
    pub secure_boot: Option<bool>,
    pub disk_info: Option<DiskInfo>,
    pub os_image_info: Option<FileInfo>,
    pub nwmgr_files: Vec<FileInfo>,
    pub os_config_info: Option<FileInfo>,
    pub kernel_info: Option<FileInfo>,
    pub initrd_info: Option<FileInfo>,
    pub device_slug: Option<String>,
    pub boot_cfg_bckup: Vec<(String, String)>,
    pub wifis: Vec<WifiConfig>,
}

/// The facts of stage 1, complete.
#[derive(Debug, PartialEq, Eq)]
pub struct MigrateInfo {
    pub os_name: Option<String>,
    pub os_arch: OSArch,
    pub efi_boot: Option<bool>,
    pub secure_boot: Option<bool>,
    pub disk_info: DiskInfo,
    pub os_image_info: FileInfo,
    pub nwmgr_files: Vec<FileInfo>,
    pub os_config_info: FileInfo,
    pub kernel_info: FileInfo,
    pub initrd_info: FileInfo,
    pub device_slug: String,
    pub boot_cfg_bckup: Vec<(String, String)>,
    pub wifis: Vec<WifiConfig>,
}

/// The mathematical content of a `MigrateInfo`.
pub struct MigrateInfoView {
    pub os_name: Option<Seq<char>>,
    pub os_arch: OSArch,
    pub efi_boot: Option<bool>,
    pub secure_boot: Option<bool>,
    pub disk_info: DiskInfoView,
    pub os_image_info: FileInfoView,
    pub nwmgr_files: Seq<FileInfoView>,
    pub os_config_info: FileInfoView,
    pub kernel_info: FileInfoView,
    pub initrd_info: FileInfoView,
    pub device_slug: Seq<char>,
    pub boot_cfg_bckup: Seq<(Seq<char>, Seq<char>)>,
    pub wifis: Seq<WifiConfigView>,
}

impl View for MigrateInfo {
    type V = MigrateInfoView;

    open spec fn view(&self) -> MigrateInfoView {
        MigrateInfoView {
            os_name: opt_view(self.os_name),
            os_arch: self.os_arch,
            efi_boot: self.efi_boot,
            secure_boot: self.secure_boot,
            disk_info: self.disk_info@,
            os_image_info: self.os_image_info@,
            nwmgr_files: files_view(self.nwmgr_files@),
            os_config_info: self.os_config_info@,
            kernel_info: self.kernel_info@,
            initrd_info: self.initrd_info@,
            device_slug: self.device_slug@,
            boot_cfg_bckup: pairs_view(self.boot_cfg_bckup@),
            wifis: wifis_view(self.wifis@),
        }
    }
}

impl MigrateInfoBuilder {
    /// The builder that holds no fact yet.
    pub fn default() -> (r: MigrateInfoBuilder)
        ensures
            r.os_name is None,
            r.os_arch is None,
            r.efi_boot is None,
            r.secure_boot is None,
            r.disk_info is None,
            r.os_image_info is None,
            r.nwmgr_files@.len() == 0,
            r.os_config_info is None,
            r.kernel_info is None,
            r.initrd_info is None,
            r.device_slug is None,
            r.boot_cfg_bckup@.len() == 0,
            r.wifis@.len() == 0,
            !r.is_complete(),
    {
        MigrateInfoBuilder {
            os_name: None,
            os_arch: None,
            efi_boot: None,
            secure_boot: None,
            disk_info: None,
            os_image_info: None,
            os_config_info: None,
            nwmgr_files: Vec::new(),
            kernel_info: None,
            initrd_info: None,
            device_slug: None,
            boot_cfg_bckup: Vec::new(),
            wifis: Vec::new(),
        }
    }

    /// Whether every required fact is there: the architecture, the disk,
    /// the image, its configuration, the kernel, the initramfs and the
    /// device slug.
    pub open spec fn is_complete(&self) -> bool {
        &&& self.os_arch is Some
        &&& self.disk_info is Some
        &&& self.os_image_info is Some
        &&& self.os_config_info is Some
        &&& self.kernel_info is Some
        &&& self.initrd_info is Some
        &&& self.device_slug is Some
    }

    /// The facts of a complete builder.
    pub open spec fn finished(&self) -> MigrateInfo {
        MigrateInfo {
            os_name: self.os_name,
            os_arch: self.os_arch->0,
            efi_boot: self.efi_boot,
            secure_boot: self.secure_boot,
            disk_info: self.disk_info->0,
            os_image_info: self.os_image_info->0,
            nwmgr_files: self.nwmgr_files,
            os_config_info: self.os_config_info->0,
            kernel_info: self.kernel_info->0,
            initrd_info: self.initrd_info->0,
            device_slug: self.device_slug->0,
            boot_cfg_bckup: self.boot_cfg_bckup,
            wifis: self.wifis,
        }
    }

    /// The complete facts, where every required fact is there;
    /// `InvParam` where one is missing.
    pub fn finish(self) -> (r: Result<MigrateInfo, MigError>)
        ensures
            match r {
                Ok(info) => self.is_complete() && info == self.finished(),
                Err(e) => !self.is_complete() && e.spec_kind() == MigErrorKind::InvParam,
            },
    {
        match (
            self.os_arch,
            self.disk_info,
            self.os_image_info,
            self.os_config_info,
            self.kernel_info,
            self.initrd_info,
            self.device_slug,
        ) {
            (
                Some(os_arch),
                Some(disk_info),
                Some(os_image_info),
                Some(os_config_info),
                Some(kernel_info),
                Some(initrd_info),
                Some(device_slug),
            ) => Ok(
                MigrateInfo {
                    os_name: self.os_name,
                    os_arch,
                    efi_boot: self.efi_boot,
                    secure_boot: self.secure_boot,
                    disk_info,
                    os_image_info,
                    nwmgr_files: self.nwmgr_files,
                    os_config_info,
                    kernel_info,
                    initrd_info,
                    device_slug,
                    boot_cfg_bckup: self.boot_cfg_bckup,
                    wifis: self.wifis,
                },
            ),
            _ => Err(
                MigError::from_remark(MigErrorKind::InvParam, "uninitialized field in MigrateInfo"),
            ),
        }
    }
}

impl MigrateInfo {
    /// The path of the staged initramfs.
    pub fn get_initrd_path(&self) -> (r: &str)
        ensures
            r@ == self@.initrd_info.path,
    {
        self.initrd_info.path.as_str()
    }

    /// The path of the staged kernel.
    pub fn get_kernel_path(&self) -> (r: &str)
        ensures
            r@ == self@.kernel_info.path,
    {
        self.kernel_info.path.as_str()
    }

    /// Size in bytes of the drive that is to be flashed.
    pub fn get_drive_size(&self) -> (r: u64)
        ensures
            r == self@.disk_info.drive_size,
    {
        self.disk_info.drive_size
    }

    /// The architecture of the processor.
    pub fn get_os_arch(&self) -> (r: &OSArch)
        ensures
            *r == self@.os_arch,
    {
        &self.os_arch
    }

    /// The device of the drive that is to be flashed.
    pub fn get_drive_device(&self) -> (r: &str)
        ensures
            r@ == self@.disk_info.drive_dev,
    {
        self.disk_info.drive_dev.as_str()
    }

    /// Whether the host was started through EFI; `false` where that is
    /// not known.
    pub fn is_efi_boot(&self) -> (r: bool)
        ensures
            r == (self@.efi_boot == Some(true)),
    {
        if let Some(efi_boot) = self.efi_boot {
            efi_boot
        } else {
            false
        }
    }

    /// The mount point of the EFI system partition, where there is one.
    pub fn get_efi_device(&self) -> (r: Option<&str>)
        ensures
            match r {
                Some(p) => self@.disk_info.efi_path matches Some(e) && p@ == e.path,
                None => self@.disk_info.efi_path is None,
            },
    {
        if let Some(ref efi_path) = self.disk_info.efi_path {
            return Some(efi_path.get_path());
        }
        return None;
    }

    /// The file system of the EFI system partition, where there is one.
    pub fn get_efi_fstype(&self) -> (r: Option<&str>)
        ensures
            match r {
                Some(t) => self@.disk_info.efi_path matches Some(e) && t@
                    == e.file_system.linux_name(),
                None => self@.disk_info.efi_path is None,
            },
    {
        if let Some(ref efi_path) = self.disk_info.efi_path {
            return Some(efi_path.get_linux_fstype());
        }
        return None;
    }

    /// The directory in which the files of the migration lie.
    pub fn get_work_path(&self) -> (r: &str)
        ensures
            r@ == self@.disk_info.work_path.path,
    {
        self.disk_info.work_path.get_path()
    }

    /// The path of the appliance image.
    pub fn get_balena_image(&self) -> (r: &str)
        ensures
            r@ == self@.os_image_info.path,
    {
        self.os_image_info.path.as_str()
    }

    /// The path of the appliance configuration.
    pub fn get_balena_config(&self) -> (r: &str)
        ensures
            r@ == self@.os_config_info.path,
    {
        self.os_config_info.path.as_str()
    }

    /// The slug of the device.
    pub fn get_device_slug(&self) -> (r: &str)
        ensures
            r@ == self@.device_slug,
    {
        self.device_slug.as_str()
    }

    /// The device that is to be flashed.
    pub fn get_flash_device(&self) -> (r: &str)
        ensures
            r@ == self@.disk_info.drive_dev,
    {
        self.disk_info.drive_dev.as_str()
    }

    /// The directory of the boot files.
    pub fn get_boot_path(&self) -> (r: &str)
        ensures
            r@ == self@.disk_info.boot_path.path,
    {
        self.disk_info.boot_path.get_path()
    }

    /// The partition that holds the boot files.
    pub fn get_boot_device(&self) -> (r: &str)
        ensures
            r@ == self@.disk_info.boot_path.linux_part,
    {
        self.disk_info.boot_path.get_linux_part()
    }

    /// The file system of the partition that holds the boot files.
    pub fn get_boot_fstype(&self) -> (r: &str)
        ensures
            r@ == self@.disk_info.boot_path.file_system.linux_name(),
    {
        self.disk_info.boot_path.get_linux_fstype()
    }

    /// The partition that holds the root of the file system.
    pub fn get_root_device(&self) -> (r: &str)
        ensures
            r@ == self@.disk_info.root_path.linux_part,
    {
        self.disk_info.root_path.get_linux_part()
    }
}

} // verus!
