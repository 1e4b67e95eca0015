//! Plain records of what the platform reports about its block devices:
//! physical drives, their partitions, volumes and mounted logical drives.

use vstd::prelude::*;

verus! {

/// The view of an optional string.
pub open spec fn opt_view(o: Option<String>) -> Option<Seq<char>> {
    match o {
        Some(s) => Some(s@),
        None => None,
    }
}

/// A copy of an optional string.
pub fn clone_opt(o: &Option<String>) -> (r: Option<String>)
    ensures
        r == *o,
{
    match o {
        Some(s) => Some(s.clone()),
        None => None,
    }
}

/// How a physical drive is attached.
#[derive(Clone, Copy, Debug, PartialEq, Eq, Structural)]
pub enum DriveType {
    Scsi,
    Ide,
    Other,
}

/// What kind of medium a volume lives on.
#[derive(Clone, Copy, Debug, PartialEq, Eq, Structural)]
pub enum VolumeType {
    Unknown,
    NoRootDir,
    RemovableDisk,
    LocalDisk,
    NetworkDrive,
    CompactDisk,
    RamDisk,
}

/// The file system of a mounted logical drive.
#[derive(Clone, Copy, Debug, PartialEq, Eq, Structural)]
pub enum FileSystem {
    Ext2,
    Ext3,
    Ext4,
    VFat,
    Ntfs,
    Other,
}

impl FileSystem {
    /// The name by which the file system is mounted.
    pub open spec fn linux_name(self) -> Seq<char> {
        match self {
            FileSystem::Ext2 => "ext2"@,
            FileSystem::Ext3 => "ext3"@,
            FileSystem::Ext4 => "ext4"@,
            FileSystem::VFat => "vfat"@,
            FileSystem::Ntfs => "ntfs"@,
            FileSystem::Other => ""@,
        }
    }

    /// The name by which the file system is mounted; empty where it has none.
    pub fn to_linux_str(&self) -> (s: &'static str)
        ensures
            s@ == self.linux_name(),
    {
        match self {
            FileSystem::Ext2 => "ext2",
            FileSystem::Ext3 => "ext3",
            FileSystem::Ext4 => "ext4",
            FileSystem::VFat => "vfat",
            FileSystem::Ntfs => "ntfs",
            FileSystem::Other => "",
        }
    }
}

/// A partition of a physical drive.
#[derive(Clone, Copy, Debug, PartialEq, Eq, Structural)]
pub struct Partition {
    /// Position of the partition on its drive, counted from zero.
    pub part_index: u32,
    /// Offset of the first byte of the partition on the drive.
    pub start_offset: u64,
    /// Size in bytes.
    pub size: u64,
}

/// The part of a physical drive that a volume occupies.
#[derive(Clone, Copy, Debug, PartialEq, Eq, Structural)]
pub struct DiskExtent {
    /// Index of the physical drive.
    pub disk_index: u64,
    /// Offset of the first byte of the extent on the drive.
    pub start_offset: u64,
}

/// A physical drive.
#[derive(Debug, PartialEq, Eq)]
pub struct PhysicalDrive {
    /// Index of the drive, unique within one enumeration.
    pub index: u64,
    /// How the drive is attached.
    pub drive_type: DriveType,
    /// Size in bytes.
    pub size: u64,
    /// The name by which the platform addresses the drive.
    pub device: String,
}

/// The mathematical content of a `PhysicalDrive`.
pub struct PhysicalDriveView {
    pub index: nat,
    pub drive_type: DriveType,
    pub size: nat,
    pub device: Seq<char>,
}

impl View for PhysicalDrive {
    type V = PhysicalDriveView;

    open spec fn view(&self) -> PhysicalDriveView {
        PhysicalDriveView {
            index: self.index as nat,
            drive_type: self.drive_type,
            size: self.size as nat,
            device: self.device@,
        }
    }
}

impl Clone for PhysicalDrive {
    fn clone(&self) -> (r: Self)
        ensures
            r == *self,
    {
        PhysicalDrive {
            index: self.index,
            drive_type: self.drive_type,
            size: self.size,
            device: self.device.clone(),
        }
    }
}

/// A mounted file system.
#[derive(Debug, PartialEq, Eq)]
pub struct LogicalDrive {
    /// The mount path or drive name.
    pub name: String,
    /// Size of the file system in bytes.
    pub size: u64,
    /// Free space in bytes.
    pub free_space: u64,
    /// Whether the file system stores its files compressed.
    pub compressed: bool,
    /// The file system.
    pub file_system: FileSystem,
}

/// The mathematical content of a `LogicalDrive`.
pub struct LogicalDriveView {
    pub name: Seq<char>,
    pub size: nat,
    pub free_space: nat,
    pub compressed: bool,
    pub file_system: FileSystem,
}

impl View for LogicalDrive {
    type V = LogicalDriveView;

    open spec fn view(&self) -> LogicalDriveView {
        LogicalDriveView {
            name: self.name@,
            size: self.size as nat,
            free_space: self.free_space as nat,
            compressed: self.compressed,
            file_system: self.file_system,
        }
    }
}

impl Clone for LogicalDrive {
    fn clone(&self) -> (r: Self)
        ensures
            r == *self,
    {
        LogicalDrive {
            name: self.name.clone(),
            size: self.size,
            free_space: self.free_space,
            compressed: self.compressed,
            file_system: self.file_system,
        }
    }
}

/// A volume as the platform lists it.
#[derive(Debug, PartialEq, Eq)]
pub struct Volume {
    /// The identifier of the volume.
    pub device_id: String,
    /// The kind of medium.
    pub drive_type: VolumeType,
    /// The name of the logical drive under which the volume is mounted.
    pub drive_letter: Option<String>,
    /// Whether this is the system (EFI) volume.
    pub system: bool,
}

/// The mathematical content of a `Volume`.
pub struct VolumeView {
    pub device_id: Seq<char>,
    pub drive_type: VolumeType,
    pub drive_letter: Option<Seq<char>>,
    pub system: bool,
}

impl View for Volume {
    type V = VolumeView;

    open spec fn view(&self) -> VolumeView {
        VolumeView {
            device_id: self.device_id@,
            drive_type: self.drive_type,
            drive_letter: opt_view(self.drive_letter),
            system: self.system,
        }
    }
}

impl Clone for Volume {
    fn clone(&self) -> (r: Self)
        ensures
            r == *self,
    {
        Volume {
            device_id: self.device_id.clone(),
            drive_type: self.drive_type,
            drive_letter: clone_opt(&self.drive_letter),
            system: self.system,
        }
    }
}

} // verus!
