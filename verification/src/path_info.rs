//! A path of the host resolved to the partition and drive that carry it,
//! with the names that both will have under the flashed system.

use vstd::prelude::*;
use vstd::string::*;

use crate::defs::DISK_BY_PARTUUID_PATH;
use crate::devices::{
    clone_opt, opt_view, DriveType, FileSystem, LogicalDrive, Partition, PhysicalDrive, Volume,
};
use crate::error::{MigError, MigErrorKind};
use crate::pattern::{capture_first, first_capture};
use crate::text::{chars_of, decimal, push_decimal, string_of};

verus! {

/// The form of a volume identifier within a longer text, with the
/// partition UUID as its group.
pub const PARTUUID_RE: &'static str =
    r#"\\\\\?\\Volume\{([0-9,a-f]{8}-[0-9,a-f]{4}-[0-9,a-f]{4}-[0-9,a-f]{4}-[0-9,a-f]{12})\}\\"#;

/// How many drives of one kind can be named.
pub const DRIVE_SUFFIX_COUNT: u64 = 5;

/// The letter that names the drive with the given index.
pub open spec fn drive_suffix(index: nat) -> char {
    if index == 0 {
        'a'
    } else if index == 1 {
        'b'
    } else if index == 2 {
        'c'
    } else if index == 3 {
        'd'
    } else {
        'e'
    }
}

/// The device name of a drive under the flashed system: `/dev/sd` or
/// `/dev/hd` and the letter of its index. Drives of another kind, and
/// those with an index of `DRIVE_SUFFIX_COUNT` or more, have none.
pub open spec fn linux_drive_name(t: DriveType, index: nat) -> Option<Seq<char>> {
    if index >= DRIVE_SUFFIX_COUNT {
        None
    } else {
        match t {
            DriveType::Scsi => Some("/dev/sd"@.push(drive_suffix(index))),
            DriveType::Ide => Some("/dev/hd"@.push(drive_suffix(index))),
            DriveType::Other => None,
        }
    }
}

/// The device name of a partition under the flashed system: by its UUID
/// where it has one, else the name of the drive followed by the number of
/// the partition, counted from one.
pub open spec fn linux_part_name(drive: Seq<char>, uuid: Option<Seq<char>>, part_index: nat) -> Seq<
    char,
> {
    match uuid {
        Some(u) => DISK_BY_PARTUUID_PATH@ + "/"@ + u,
        None => drive + decimal(part_index + 1),
    }
}

/// Whether `c` is a letter of the Latin alphabet.
pub open spec fn is_drive_letter(c: char) -> bool {
    ('a' <= c && c <= 'z') || ('A' <= c && c <= 'Z')
}

/// How many leading characters of `path` name a drive: two where it
/// starts with a letter and a colon, else none.
pub open spec fn drive_prefix_len(path: Seq<char>) -> int {
    if path.len() >= 2 && is_drive_letter(path[0]) && path[1] == ':' {
        2
    } else {
        0
    }
}

/// A character of a path as the flashed system writes it.
pub open spec fn to_linux_char(c: char) -> char {
    if c == '\\' {
        '/'
    } else {
        c
    }
}

/// The path as the flashed system writes it: without the drive it starts
/// with, and with a slash in place of each backslash.
pub open spec fn to_linux_path(path: Seq<char>) -> Seq<char> {
    Seq::new(
        (path.len() - drive_prefix_len(path)) as nat,
        |i: int| to_linux_char(path[i + drive_prefix_len(path)]),
    )
}

/// A path, resolved.
#[derive(Debug, PartialEq, Eq)]
pub struct PathInfo {
    path: String,
    mountpoint: String,
    linux_drive: String,
    linux_part: String,
    part_uuid: Option<String>,
    part_size: u64,
    fs_size: u64,
    fs_free: u64,
    fs_compressed: bool,
    file_system: FileSystem,
}

/// The mathematical content of a `PathInfo`.
pub struct PathInfoView {
    /// The path that was resolved.
    pub path: Seq<char>,
    /// The mount point of the file system that carries the path.
    pub mountpoint: Seq<char>,
    /// The name of the drive under the flashed system.
    pub linux_drive: Seq<char>,
    /// The name of the partition under the flashed system.
    pub linux_part: Seq<char>,
    /// The UUID of the partition, where one is known.
    pub part_uuid: Option<Seq<char>>,
    /// Size of the partition in bytes.
    pub part_size: nat,
    /// Size of the file system in bytes.
    pub fs_size: nat,
    /// Free space on the file system in bytes.
    pub fs_free: nat,
    /// Whether the file system stores its files compressed.
    pub fs_compressed: bool,
    /// The file system.
    pub file_system: FileSystem,
}

impl View for PathInfo {
    type V = PathInfoView;

    closed spec fn view(&self) -> PathInfoView {
        PathInfoView {
            path: self.path@,
            mountpoint: self.mountpoint@,
            linux_drive: self.linux_drive@,
            linux_part: self.linux_part@,
            part_uuid: opt_view(self.part_uuid),
            part_size: self.part_size as nat,
            fs_size: self.fs_size as nat,
            fs_free: self.fs_free as nat,
            fs_compressed: self.fs_compressed,
            file_system: self.file_system,
        }
    }
}

/// What `PathInfo::from_parts` builds from its arguments, where the drive
/// can be named.
pub open spec fn path_info_spec(
    path: Seq<char>,
    part_uuid: Option<Seq<char>>,
    drive_type: DriveType,
    drive_index: nat,
    partition: Partition,
    mount: crate::devices::LogicalDriveView,
) -> Option<PathInfoView> {
    match linux_drive_name(drive_type, drive_index) {
        Some(d) => Some(
            PathInfoView {
                path,
                mountpoint: mount.name,
                linux_drive: d,
                linux_part: linux_part_name(d, part_uuid, partition.part_index as nat),
                part_uuid,
                part_size: partition.size as nat,
                fs_size: mount.size,
                fs_free: mount.free_space,
                fs_compressed: mount.compressed,
                file_system: mount.file_system,
            },
        ),
        None => None,
    }
}

/// The letter of the drive with the given index.
fn suffix_of(index: u64) -> (c: char)
    requires
        index < DRIVE_SUFFIX_COUNT,
    ensures
        c == drive_suffix(index as nat),
{
    if index == 0 {
        'a'
    } else if index == 1 {
        'b'
    } else if index == 2 {
        'c'
    } else if index == 3 {
        'd'
    } else {
        'e'
    }
}

/// The device name of a drive under the flashed system.
fn drive_name(t: DriveType, index: u64) -> (r: Option<String>)
    ensures
        opt_view(r) == linux_drive_name(t, index as nat),
{
    if index >= DRIVE_SUFFIX_COUNT {
        return None;
    }
    match t {
        DriveType::Scsi => {
            let mut s = String::from_str("/dev/sd");
            s.push(suffix_of(index));
            Some(s)
        },
        DriveType::Ide => {
            let mut s = String::from_str("/dev/hd");
            s.push(suffix_of(index));
            Some(s)
        },
        DriveType::Other => None,
    }
}

impl PathInfo {
    /// Resolves `path`, which lies on the logical drive `mount`, on the
    /// partition `partition` of the drive `drive`, given the UUID of the
    /// partition where there is one.
    ///
    /// Fails with `NotImpl` where the drive cannot be named under the
    /// flashed system.
    pub fn from_parts(
        path: &str,
        part_uuid: Option<String>,
        drive: &PhysicalDrive,
        partition: &Partition,
        mount: &LogicalDrive,
    ) -> (r: Result<PathInfo, MigError>)
        ensures
            match r {
                Ok(p) => Some(p@) == path_info_spec(
                    path@,
                    opt_view(part_uuid),
                    drive.drive_type,
                    drive.index as nat,
                    *partition,
                    mount@,
                ),
                Err(e) => e.spec_kind() == MigErrorKind::NotImpl && path_info_spec(
                    path@,
                    opt_view(part_uuid),
                    drive.drive_type,
                    drive.index as nat,
                    *partition,
                    mount@,
                ) is None,
            },
    {
        let linux_drive = match drive_name(drive.drive_type, drive.index) {
            Some(d) => d,
            None => {
                return Err(
                    MigError::from_remark(
                        MigErrorKind::NotImpl,
                        "Cannot derive linux drive name from drive type or index",
                    ),
                );
            },
        };
        let linux_part = match &part_uuid {
            Some(uuid) => {
                let mut s = String::from_str(DISK_BY_PARTUUID_PATH);
                s.append("/");
                s.append(uuid.as_str());
                s
            },
            None => {
                let mut s = linux_drive.clone();
                push_decimal(&mut s, partition.part_index as u64 + 1);
                s
            },
        };
        Ok(
            PathInfo {
                path: String::from_str(path),
                mountpoint: mount.name.clone(),
                linux_drive,
                linux_part,
                part_uuid,
                part_size: partition.size,
                fs_size: mount.size,
                fs_free: mount.free_space,
                fs_compressed: mount.compressed,
                file_system: mount.file_system,
            },
        )
    }

    /// Resolves `path`, which lies on the logical drive `mount` of the
    /// volume `volume`, on the partition `partition` of the drive `drive`.
    /// The UUID of the partition is read from the identifier of the
    /// volume; without one the partition is named by its number.
    ///
    /// Fails with `NotImpl` where the drive cannot be named under the
    /// flashed system.
    pub fn new(
        path: &str,
        volume: &Volume,
        drive: &PhysicalDrive,
        partition: &Partition,
        mount: &LogicalDrive,
    ) -> (r: Result<PathInfo, MigError>)
        ensures
            match r {
                Ok(p) => Some(p@) == path_info_spec(
                    path@,
                    first_capture(PARTUUID_RE@, volume.device_id@),
                    drive.drive_type,
                    drive.index as nat,
                    *partition,
                    mount@,
                ),
                Err(e) => e.spec_kind() == MigErrorKind::NotImpl && path_info_spec(
                    path@,
                    first_capture(PARTUUID_RE@, volume.device_id@),
                    drive.drive_type,
                    drive.index as nat,
                    *partition,
                    mount@,
                ) is None,
            },
    {
        let part_uuid = capture_first(PARTUUID_RE, volume.device_id.as_str());
        PathInfo::from_parts(path, part_uuid, drive, partition, mount)
    }

    /// The path as the flashed system writes it.
    pub fn get_linux_path(&self) -> (r: String)
        ensures
            r@ == to_linux_path(self@.path),
    {
        let chars = chars_of(self.path.as_str());
        let n = chars.len();
        let skip: usize = if n >= 2 && is_letter(chars[0]) && chars[1] == ':' {
            2
        } else {
            0
        };
        let mut out: Vec<char> = Vec::new();
        let mut i: usize = skip;
        while i < n
            invariant
                skip <= i <= n,
                n == chars.len(),
                chars@ == self@.path,
                skip == drive_prefix_len(self@.path),
                out.len() == i - skip,
                forall|j: int| 0 <= j < out.len() ==> out@[j] == to_linux_char(chars@[j + skip]),
            decreases n - i,
        {
            let c = chars[i];
            out.push(if c == '\\' {
                '/'
            } else {
                c
            });
            i += 1;
        }
        assert(out@ =~= to_linux_path(self@.path));
        string_of(&out)
    }

    /// The path that was resolved.
    pub fn get_path(&self) -> (r: &str)
        ensures
            r@ == self@.path,
    {
        self.path.as_str()
    }

    /// The mount point of the file system that carries the path.
    pub fn get_mountpoint(&self) -> (r: &str)
        ensures
            r@ == self@.mountpoint,
    {
        self.mountpoint.as_str()
    }

    /// The name of the partition under the flashed system.
    pub fn get_linux_part(&self) -> (r: &str)
        ensures
            r@ == self@.linux_part,
    {
        self.linux_part.as_str()
    }

    /// The name of the drive under the flashed system.
    pub fn get_linux_drive(&self) -> (r: &str)
        ensures
            r@ == self@.linux_drive,
    {
        self.linux_drive.as_str()
    }

    /// The name by which the file system is mounted.
    pub fn get_linux_fstype(&self) -> (r: &'static str)
        ensures
            r@ == self@.file_system.linux_name(),
    {
        self.file_system.to_linux_str()
    }

    /// The UUID of the partition, where one is known.
    pub fn get_partuuid(&self) -> (r: Option<&str>)
        ensures
            match r {
                Some(s) => self@.part_uuid == Some(s@),
                None => self@.part_uuid is None,
            },
    {
        match &self.part_uuid {
            Some(partuuid) => Some(partuuid.as_str()),
            None => None,
        }
    }

    /// The UUID of the partition, for those who cannot do without one:
    /// `NoMatch` where none is known.
    pub fn require_partuuid(&self) -> (r: Result<&str, MigError>)
        ensures
            match r {
                Ok(s) => self@.part_uuid == Some(s@),
                Err(e) => self@.part_uuid is None && e.spec_kind() == MigErrorKind::NoMatch,
            },
    {
        match &self.part_uuid {
            Some(partuuid) => Ok(partuuid.as_str()),
            None => Err(
                MigError::from_remark(
                    MigErrorKind::NoMatch,
                    "Could not extract partuuid from volume id",
                ),
            ),
        }
    }

    /// Free space on the file system in bytes.
    pub fn get_fs_free(&self) -> (r: u64)
        ensures
            r == self@.fs_free,
    {
        self.fs_free
    }

    /// Size of the file system in bytes.
    pub fn get_fs_size(&self) -> (r: u64)
        ensures
            r == self@.fs_size,
    {
        self.fs_size
    }

    /// Size of the partition in bytes.
    pub fn get_part_size(&self) -> (r: u64)
        ensures
            r == self@.part_size,
    {
        self.part_size
    }
}

impl Clone for PathInfo {
    fn clone(&self) -> (r: Self)
        ensures
            r == *self,
    {
        PathInfo {
            path: self.path.clone(),
            mountpoint: self.mountpoint.clone(),
            linux_drive: self.linux_drive.clone(),
            linux_part: self.linux_part.clone(),
            part_uuid: clone_opt(&self.part_uuid),
            part_size: self.part_size,
            fs_size: self.fs_size,
            fs_free: self.fs_free,
            fs_compressed: self.fs_compressed,
            file_system: self.file_system,
        }
    }
}

/// Whether `c` is a letter of the Latin alphabet.
fn is_letter(c: char) -> (r: bool)
    ensures
        r == is_drive_letter(c),
{
    ('a' <= c && c <= 'z') || ('A' <= c && c <= 'Z')
}

} // verus!
