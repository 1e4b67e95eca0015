//! The view that stage 1 has of a host: its architecture, and the
//! resolution of paths and partitions against its block topology.

use vstd::prelude::*;
use vstd::string::*;

use crate::defs::OSArch;
use crate::devices::{Partition, PhysicalDrive};
use crate::drive_info::{is_best_mount, DriveInfo, VolumeInfoView};
use crate::error::{MigError, MigErrorKind};
use crate::path_info::{path_info_spec, PathInfo, PathInfoView, PARTUUID_RE};
use crate::pattern::first_capture;
use crate::text::{path_within, str_eq};

verus! {

/// The architecture that a machine name stands for: the name as the
/// kernel reports it.
pub open spec fn arch_of(machine: Seq<char>) -> Option<OSArch> {
    if machine == "x86_64"@ {
        Some(OSArch::AMD64)
    } else if machine == "i386"@ || machine == "i686"@ {
        Some(OSArch::I386)
    } else if machine == "armv7l"@ || machine == "armv6l"@ {
        Some(OSArch::ARMHF)
    } else {
        None
    }
}

/// What resolving a path on volume `v` gives.
pub open spec fn resolved_on(path: Seq<char>, v: VolumeInfoView) -> Option<PathInfoView> {
    path_info_spec(
        path,
        first_capture(PARTUUID_RE@, v.volume.device_id),
        v.physical_drive.drive_type,
        v.physical_drive.index,
        v.partition,
        v.logical_drive,
    )
}

/// Whether the partition of volume `v` has the device name `part` under
/// the flashed system.
pub open spec fn is_partition_of(part: Seq<char>, v: VolumeInfoView) -> bool {
    resolved_on(v.logical_drive.name, v) matches Some(p) && p.linux_part == part
}

/// The first volume at or after `from` whose partition has the device
/// name `part`.
pub open spec fn first_with_partition(vols: Seq<VolumeInfoView>, part: Seq<char>, from: int)
    -> Option<int>
    decreases vols.len() - from,
{
    if from < 0 || from >= vols.len() {
        None
    } else if is_partition_of(part, vols[from]) {
        Some(from)
    } else {
        first_with_partition(vols, part, from + 1)
    }
}

/// A host, seen through its block topology.
pub struct LinuxAPI<'a> {
    drive_info: &'a DriveInfo,
}

impl<'a> LinuxAPI<'a> {
    /// The topology that paths and partitions are resolved against.
    pub closed spec fn topology(&self) -> DriveInfo {
        *self.drive_info
    }

    /// The view of a host with the given topology.
    pub fn new(drive_info: &'a DriveInfo) -> (r: LinuxAPI<'a>)
        ensures
            r.topology() == *drive_info,
    {
        LinuxAPI { drive_info }
    }

    /// The architecture of the host, from the machine name that its kernel
    /// reports; `InvParam` for a name that stands for none.
    pub fn get_os_arch(machine: &str) -> (r: Result<OSArch, MigError>)
        ensures
            match r {
                Ok(a) => arch_of(machine@) == Some(a),
                Err(e) => arch_of(machine@) is None && e.spec_kind() == MigErrorKind::InvParam,
            },
    {
        if str_eq(machine, "x86_64") {
            Ok(OSArch::AMD64)
        } else if str_eq(machine, "i386") || str_eq(machine, "i686") {
            Ok(OSArch::I386)
        } else if str_eq(machine, "armv7l") || str_eq(machine, "armv6l") {
            Ok(OSArch::ARMHF)
        } else {
            Err(MigError::from_remark(MigErrorKind::InvParam, "unsupported architecture"))
        }
    }

    /// Resolves `path` on the volume with the longest mount point that it
    /// lies within.
    ///
    /// Fails with `NotFound` where `path` lies within no mount point, and
    /// with `NotImpl` where the drive of the volume cannot be named under
    /// the flashed system.
    pub fn path_info_from_path(&self, path: &str) -> (r: Result<PathInfo, MigError>)
        ensures
            match r {
                Ok(p) => exists|k: int|
                    is_best_mount(self.topology().volumes(), path@, k) && Some(p@) == resolved_on(
                        path@,
                        #[trigger] self.topology().volumes()[k],
                    ),
                Err(e) => if e.spec_kind() == MigErrorKind::NotFound {
                    forall|j: int|
                        0 <= j < self.topology().volumes().len() ==> !path_within(
                            #[trigger] self.topology().volumes()[j].logical_drive.name,
                            path@,
                        )
                } else {
                    e.spec_kind() == MigErrorKind::NotImpl && exists|k: int|
                        is_best_mount(self.topology().volumes(), path@, k) && resolved_on(
                            path@,
                            #[trigger] self.topology().volumes()[k],
                        ) is None
                },
            },
            r matches Ok(p) ==> p@.path == path@ && p@.mountpoint.is_prefix_of(path@),
    {
        match self.drive_info.carrier_of(path) {
            Some(k) => {
                let v = self.drive_info.volume(k);
                let r = PathInfo::new(
                    path,
                    &v.volume,
                    &v.physical_drive,
                    &v.partition,
                    &v.logical_drive,
                );
                proof {
                    assert(is_best_mount(self.topology().volumes(), path@, k as int));
                    assert(v@ == self.topology().volumes()[k as int]);
                }
                r
            },
            None => Err(
                MigError::from_remark(MigErrorKind::NotFound, "Unable to create path info from path"),
            ),
        }
    }

    /// The drive and the partition of the first volume whose partition has
    /// the device name `part` under the flashed system; `NotFound` where
    /// no volume has.
    pub fn device_info_from_partition(&self, part: &str) -> (r: Result<
        (PhysicalDrive, Partition),
        MigError,
    >)
        ensures
            match r {
                Ok((drive, partition)) => first_with_partition(
                    self.topology().volumes(),
                    part@,
                    0,
                ) matches Some(k) && drive@ == self.topology().volumes()[k].physical_drive
                    && partition == self.topology().volumes()[k].partition,
                Err(e) => e.spec_kind() == MigErrorKind::NotFound && first_with_partition(
                    self.topology().volumes(),
                    part@,
                    0,
                ) is None,
            },
    {
        let n = self.drive_info.volume_count();
        let mut i: usize = 0;
        while i < n
            invariant
                i <= n,
                n == self.topology().volumes().len(),
                first_with_partition(self.topology().volumes(), part@, 0) == first_with_partition(
                    self.topology().volumes(),
                    part@,
                    i as int,
                ),
            decreases n - i,
        {
            let v = self.drive_info.volume(i);
            match PathInfo::new(
                v.logical_drive.name.as_str(),
                &v.volume,
                &v.physical_drive,
                &v.partition,
                &v.logical_drive,
            ) {
                Ok(p) => {
                    if str_eq(p.get_linux_part(), part) {
                        return Ok((v.physical_drive.clone(), v.partition));
                    }
                },
                Err(_) => {},
            }
            i += 1;
        }
        Err(MigError::from_remark(MigErrorKind::NotFound, "No partition found for device"))
    }
}

} // verus!
