//! The block topology of the host: which volume is mounted from which
//! partition of which physical drive, and which volume carries a path.

use vstd::prelude::*;

use crate::devices::{
    clone_opt, opt_view, DiskExtent, LogicalDrive, LogicalDriveView, Partition, PhysicalDrive,
    PhysicalDriveView, Volume, VolumeType, VolumeView,
};
use crate::error::{MigError, MigErrorKind};
use crate::pattern::{capture_first, first_capture};
use crate::text::{chars_of, chars_within, path_within};

verus! {

/// The form of a volume identifier, with the partition UUID as its group.
pub const VOL_UUID_REGEX: &'static str =
    r#"^\\\\\?\\Volume\{([a-f0-9]{8}-[a-f0-9]{4}-[a-f0-9]{4}-[a-f0-9]{4}-[a-f0-9]{12})\}\\$"#;

/// A physical drive together with the partitions enumerated on it.
#[derive(Debug, PartialEq, Eq)]
pub struct DriveProbe {
    pub drive: PhysicalDrive,
    pub partitions: Vec<Partition>,
}

/// The mathematical content of a `DriveProbe`.
pub struct DriveProbeView {
    pub drive: PhysicalDriveView,
    pub partitions: Seq<Partition>,
}

impl View for DriveProbe {
    type V = DriveProbeView;

    open spec fn view(&self) -> DriveProbeView {
        DriveProbeView { drive: self.drive@, partitions: self.partitions@ }
    }
}

/// A logical drive together with the disk extents that it occupies.
#[derive(Debug, PartialEq, Eq)]
pub struct MountProbe {
    pub drive: LogicalDrive,
    pub extents: Vec<DiskExtent>,
}

/// The mathematical content of a `MountProbe`.
pub struct MountProbeView {
    pub drive: LogicalDriveView,
    pub extents: Seq<DiskExtent>,
}

impl View for MountProbe {
    type V = MountProbeView;

    open spec fn view(&self) -> MountProbeView {
        MountProbeView { drive: self.drive@, extents: self.extents@ }
    }
}

/// Everything that one enumeration of the host's block devices found.
///
/// Only what could be enumerated completely is listed: a logical or
/// physical drive that is looked up and not found counts as a failure of
/// the enumeration.
#[derive(Debug, PartialEq, Eq)]
pub struct Enumeration {
    /// The logical drive under which the EFI system partition was mounted
    /// for this enumeration, on a host that was started through EFI.
    pub efi_drive: Option<MountProbe>,
    /// The volumes, in the order in which the platform lists them.
    pub volumes: Vec<Volume>,
    /// The logical drives.
    pub logical_drives: Vec<MountProbe>,
    /// The physical drives.
    pub physical_drives: Vec<DriveProbe>,
}

/// The mathematical content of an `Enumeration`.
pub struct EnumerationView {
    pub efi_drive: Option<MountProbeView>,
    pub volumes: Seq<VolumeView>,
    pub logical_drives: Seq<MountProbeView>,
    pub physical_drives: Seq<DriveProbeView>,
}

/// The views of a sequence of volumes.
pub open spec fn volumes_view(v: Seq<Volume>) -> Seq<VolumeView> {
    Seq::new(v.len(), |i: int| v[i]@)
}

/// The views of a sequence of logical drives.
pub open spec fn mounts_view(v: Seq<MountProbe>) -> Seq<MountProbeView> {
    Seq::new(v.len(), |i: int| v[i]@)
}

/// The views of a sequence of physical drives.
pub open spec fn drives_view(v: Seq<DriveProbe>) -> Seq<DriveProbeView> {
    Seq::new(v.len(), |i: int| v[i]@)
}

/// The view of an optional logical drive.
pub open spec fn opt_mount_view(o: Option<MountProbe>) -> Option<MountProbeView> {
    match o {
        Some(m) => Some(m@),
        None => None,
    }
}

impl View for Enumeration {
    type V = EnumerationView;

    open spec fn view(&self) -> EnumerationView {
        EnumerationView {
            efi_drive: opt_mount_view(self.efi_drive),
            volumes: volumes_view(self.volumes@),
            logical_drives: mounts_view(self.logical_drives@),
            physical_drives: drives_view(self.physical_drives@),
        }
    }
}

impl EnumerationView {
    /// No two drives share an index, and on no drive do two partitions
    /// share an index.
    pub open spec fn valid(self) -> bool {
        &&& forall|i: int, j: int|
            0 <= i < j < self.physical_drives.len() ==> self.physical_drives[i].drive.index
                != self.physical_drives[j].drive.index
        &&& forall|k: int, i: int, j: int|
            0 <= k < self.physical_drives.len() && 0 <= i < j
                < self.physical_drives[k].partitions.len()
                ==> self.physical_drives[k].partitions[i].part_index
                != self.physical_drives[k].partitions[j].part_index
    }
}

/// A mounted volume with the partition and the drive that carry it.
#[derive(Debug, PartialEq, Eq)]
pub struct VolumeInfo {
    /// The UUID of the partition, where the volume identifier holds one.
    pub part_uuid: Option<String>,
    pub volume: Volume,
    pub logical_drive: LogicalDrive,
    pub physical_drive: PhysicalDrive,
    pub partition: Partition,
}

/// The mathematical content of a `VolumeInfo`.
pub struct VolumeInfoView {
    pub part_uuid: Option<Seq<char>>,
    pub volume: VolumeView,
    pub logical_drive: LogicalDriveView,
    pub physical_drive: PhysicalDriveView,
    pub partition: Partition,
}

impl View for VolumeInfo {
    type V = VolumeInfoView;

    open spec fn view(&self) -> VolumeInfoView {
        VolumeInfoView {
            part_uuid: opt_view(self.part_uuid),
            volume: self.volume@,
            logical_drive: self.logical_drive@,
            physical_drive: self.physical_drive@,
            partition: self.partition,
        }
    }
}

impl Clone for VolumeInfo {
    fn clone(&self) -> (r: Self)
        ensures
            r == *self,
    {
        VolumeInfo {
            part_uuid: clone_opt(&self.part_uuid),
            volume: self.volume.clone(),
            logical_drive: self.logical_drive.clone(),
            physical_drive: self.physical_drive.clone(),
            partition: self.partition,
        }
    }
}

/// The views of a sequence of volume infos.
pub open spec fn infos_view(v: Seq<VolumeInfo>) -> Seq<VolumeInfoView> {
    Seq::new(v.len(), |i: int| v[i]@)
}

/// The views of a sequence of optional strings.
pub open spec fn opts_view(v: Seq<Option<String>>) -> Seq<Option<Seq<char>>> {
    Seq::new(v.len(), |i: int| opt_view(v[i]))
}

/// Whether volumes on this kind of medium are part of the topology.
pub open spec fn usable(t: VolumeType) -> bool {
    t == VolumeType::LocalDisk || t == VolumeType::RemovableDisk
}

/// The first logical drive at or after `from` that has the given name.
pub open spec fn first_mount(ms: Seq<MountProbeView>, name: Seq<char>, from: int) -> Option<int>
    decreases ms.len() - from,
{
    if from < 0 || from >= ms.len() {
        None
    } else if ms[from].drive.name == name {
        Some(from)
    } else {
        first_mount(ms, name, from + 1)
    }
}

/// The first physical drive at or after `from` that has the given index.
pub open spec fn first_drive(ds: Seq<DriveProbeView>, index: nat, from: int) -> Option<int>
    decreases ds.len() - from,
{
    if from < 0 || from >= ds.len() {
        None
    } else if ds[from].drive.index == index {
        Some(from)
    } else {
        first_drive(ds, index, from + 1)
    }
}

/// The first partition at or after `from` that starts at the given offset.
pub open spec fn first_partition(ps: Seq<Partition>, start: u64, from: int) -> Option<int>
    decreases ps.len() - from,
{
    if from < 0 || from >= ps.len() {
        None
    } else if ps[from].start_offset == start {
        Some(from)
    } else {
        first_partition(ps, start, from + 1)
    }
}

/// What the topology holds for one enumerated volume.
pub enum Resolved {
    /// The volume is left out: wrong medium, or not mounted.
    Skip,
    /// The volume with its logical drive, physical drive and partition.
    Found(VolumeInfoView),
    /// The enumeration cannot be used.
    Fail(MigErrorKind),
}

/// Whether volume `i` is the one that takes the EFI drive: it is usable,
/// has no drive of its own, is the system volume, and the EFI drive is
/// there and not yet taken.
pub open spec fn takes_efi(e: EnumerationView, i: int, efi_free: bool) -> bool {
    &&& usable(e.volumes[i].drive_type)
    &&& e.volumes[i].drive_letter is None
    &&& e.volumes[i].system
    &&& efi_free
    &&& e.efi_drive is Some
}

/// The logical drive of volume `i`: the one named by its drive letter,
/// which must be enumerated; without a letter, the EFI drive for the
/// volume that takes it, and none for any other.
pub open spec fn mount_of(e: EnumerationView, i: int, efi_free: bool) -> Result<
    Option<MountProbeView>,
    MigErrorKind,
> {
    match e.volumes[i].drive_letter {
        Some(letter) => match first_mount(e.logical_drives, letter, 0) {
            Some(k) => Ok(Some(e.logical_drives[k])),
            None => Err(MigErrorKind::EnumFailed),
        },
        None => if takes_efi(e, i, efi_free) {
            Ok(e.efi_drive)
        } else {
            Ok(None)
        },
    }
}

/// What the topology holds for volume `i`, given its partition UUID and
/// whether the EFI drive is still to be had.
///
/// A usable, mounted volume must occupy exactly one disk extent
/// (`InvParam` otherwise), on an enumerated drive (`EnumFailed`), at the
/// start of one of its partitions (`NotFound`).
pub open spec fn resolve_volume(
    e: EnumerationView,
    uuid: Option<Seq<char>>,
    i: int,
    efi_free: bool,
) -> Resolved {
    if !usable(e.volumes[i].drive_type) {
        Resolved::Skip
    } else {
        match mount_of(e, i, efi_free) {
            Err(k) => Resolved::Fail(k),
            Ok(None) => Resolved::Skip,
            Ok(Some(m)) => if m.extents.len() != 1 {
                Resolved::Fail(MigErrorKind::InvParam)
            } else {
                match first_drive(e.physical_drives, m.extents[0].disk_index as nat, 0) {
                    None => Resolved::Fail(MigErrorKind::EnumFailed),
                    Some(d) => match first_partition(
                        e.physical_drives[d].partitions,
                        m.extents[0].start_offset,
                        0,
                    ) {
                        None => Resolved::Fail(MigErrorKind::NotFound),
                        Some(p) => Resolved::Found(
                            VolumeInfoView {
                                part_uuid: uuid,
                                volume: e.volumes[i],
                                logical_drive: m.drive,
                                physical_drive: e.physical_drives[d].drive,
                                partition: e.physical_drives[d].partitions[p],
                            },
                        ),
                    },
                }
            },
        }
    }
}

/// The volume infos of the volumes from `i` on, appended to `acc`; the
/// kind of the first failure where one of them cannot be resolved.
pub open spec fn assemble_from(
    e: EnumerationView,
    uuids: Seq<Option<Seq<char>>>,
    i: int,
    efi_free: bool,
    acc: Seq<VolumeInfoView>,
) -> Result<Seq<VolumeInfoView>, MigErrorKind>
    decreases e.volumes.len() - i,
{
    if i < 0 || i >= e.volumes.len() {
        Ok(acc)
    } else {
        match resolve_volume(e, uuids[i], i, efi_free) {
            Resolved::Fail(k) => Err(k),
            Resolved::Skip => assemble_from(
                e,
                uuids,
                i + 1,
                efi_free && !takes_efi(e, i, efi_free),
                acc,
            ),
            Resolved::Found(v) => assemble_from(
                e,
                uuids,
                i + 1,
                efi_free && !takes_efi(e, i, efi_free),
                acc.push(v),
            ),
        }
    }
}

/// The volume infos of an enumeration, in the order of its volumes, given
/// the partition UUID of each volume.
pub open spec fn assemble_spec(e: EnumerationView, uuids: Seq<Option<Seq<char>>>) -> Result<
    Seq<VolumeInfoView>,
    MigErrorKind,
> {
    assemble_from(e, uuids, 0, true, Seq::empty())
}

/// The partition UUID that the identifier of each volume holds.
pub open spec fn volume_uuids(volumes: Seq<VolumeView>) -> Seq<Option<Seq<char>>> {
    Seq::new(volumes.len(), |i: int| first_capture(VOL_UUID_REGEX@, volumes[i].device_id))
}

/// Whether drive `k` of `drives` is the drive of `v` and lists its partition.
pub open spec fn carries(drives: Seq<DriveProbeView>, k: int, v: VolumeInfoView) -> bool {
    &&& 0 <= k < drives.len()
    &&& drives[k].drive == v.physical_drive
    &&& drives[k].partitions.contains(v.partition)
}


/// Whether some drive of `drives` is the drive of `v` and lists its partition.
pub open spec fn located(drives: Seq<DriveProbeView>, v: VolumeInfoView) -> bool {
    exists|k: int| #[trigger] carries(drives, k, v)
}

/// Whether two volumes are mounted from the same partition of the same
/// drive.
pub open spec fn same_partition(a: VolumeInfoView, b: VolumeInfoView) -> bool {
    a.physical_drive.index == b.physical_drive.index && a.partition.part_index
        == b.partition.part_index
}

/// Whether no partition has more than one mount: no two of the volumes
/// are mounted from the same partition of the same drive.
pub open spec fn single_mounts(volumes: Seq<VolumeInfoView>) -> bool {
    forall|i: int, j: int|
        0 <= i < j < volumes.len() ==> !same_partition(#[trigger] volumes[i], #[trigger] volumes[j])
}

/// The topology of a host is sound when no two drives share an index,
/// every volume info names a drive of the topology that lists its
/// partition, and no partition has more than one mount.
pub open spec fn topology_wf(drives: Seq<DriveProbeView>, volumes: Seq<VolumeInfoView>) -> bool {
    &&& forall|i: int, j: int|
        0 <= i < j < drives.len() ==> drives[i].drive.index != drives[j].drive.index
    &&& forall|i: int| 0 <= i < volumes.len() ==> #[trigger] located(drives, volumes[i])
    &&& single_mounts(volumes)
}

/// The mounted volumes of the topology that an enumeration gives.
///
/// `InvParam` where two drives, or two partitions of one drive, share an
/// index; else what `assemble_spec` gives for the partition UUIDs that
/// the volume identifiers hold, where that is a failure; else `InvParam`
/// where two of the volumes are mounted from one partition.
pub open spec fn topology_of(e: EnumerationView) -> Result<Seq<VolumeInfoView>, MigErrorKind> {
    if !e.valid() {
        Err(MigErrorKind::InvParam)
    } else {
        match assemble_spec(e, volume_uuids(e.volumes)) {
            Err(kind) => Err(kind),
            Ok(volumes) => if single_mounts(volumes) {
                Ok(volumes)
            } else {
                Err(MigErrorKind::InvParam)
            },
        }
    }
}

/// What was decided for one volume.
enum Resolution {
    Skip,
    Found(VolumeInfo),
    Fail(MigError),
}

impl Resolution {
    spec fn matches_spec(self, r: Resolved) -> bool {
        match self {
            Resolution::Skip => r is Skip,
            Resolution::Found(v) => r == Resolved::Found(v@),
            Resolution::Fail(e) => r == Resolved::Fail(e.spec_kind()),
        }
    }
}

fn find_mount(ms: &Vec<MountProbe>, name: &String) -> (r: Option<usize>)
    ensures
        match r {
            Some(k) => k < ms.len() && first_mount(mounts_view(ms@), name@, 0) == Some(k as int),
            None => first_mount(mounts_view(ms@), name@, 0) is None,
        },
{
    let mut i: usize = 0;
    while i < ms.len()
        invariant
            i <= ms.len(),
            first_mount(mounts_view(ms@), name@, 0) == first_mount(
                mounts_view(ms@),
                name@,
                i as int,
            ),
        decreases ms.len() - i,
    {
        if ms[i].drive.name == *name {
            return Some(i);
        }
        i += 1;
    }
    None
}

fn find_drive(ds: &Vec<DriveProbe>, index: u64) -> (r: Option<usize>)
    ensures
        match r {
            Some(k) => k < ds.len() && first_drive(drives_view(ds@), index as nat, 0) == Some(
                k as int,
            ),
            None => first_drive(drives_view(ds@), index as nat, 0) is None,
        },
{
    let mut i: usize = 0;
    while i < ds.len()
        invariant
            i <= ds.len(),
            first_drive(drives_view(ds@), index as nat, 0) == first_drive(
                drives_view(ds@),
                index as nat,
                i as int,
            ),
        decreases ds.len() - i,
    {
        if ds[i].drive.index == index {
            return Some(i);
        }
        i += 1;
    }
    None
}

fn find_partition(ps: &Vec<Partition>, start: u64) -> (r: Option<usize>)
    ensures
        match r {
            Some(k) => k < ps.len() && first_partition(ps@, start, 0) == Some(k as int),
            None => first_partition(ps@, start, 0) is None,
        },
{
    let mut i: usize = 0;
    while i < ps.len()
        invariant
            i <= ps.len(),
            first_partition(ps@, start, 0) == first_partition(ps@, start, i as int),
        decreases ps.len() - i,
    {
        if ps[i].start_offset == start {
            return Some(i);
        }
        i += 1;
    }
    None
}

fn is_usable(t: VolumeType) -> (r: bool)
    ensures
        r == usable(t),
{
    match t {
        VolumeType::LocalDisk => true,
        VolumeType::RemovableDisk => true,
        _ => false,
    }
}

/// Resolves volume `i` on the logical drive `mount`.
fn resolve_on(raw: &Enumeration, uuid: &Option<String>, i: usize, mount: &MountProbe) -> (r:
    Resolution)
    requires
        i < raw.volumes.len(),
    ensures
        r.matches_spec(
            if mount@.extents.len() != 1 {
                Resolved::Fail(MigErrorKind::InvParam)
            } else {
                match first_drive(raw@.physical_drives, mount@.extents[0].disk_index as nat, 0) {
                    None => Resolved::Fail(MigErrorKind::EnumFailed),
                    Some(d) => match first_partition(
                        raw@.physical_drives[d].partitions,
                        mount@.extents[0].start_offset,
                        0,
                    ) {
                        None => Resolved::Fail(MigErrorKind::NotFound),
                        Some(p) => Resolved::Found(
                            VolumeInfoView {
                                part_uuid: opt_view(*uuid),
                                volume: raw@.volumes[i as int],
                                logical_drive: mount@.drive,
                                physical_drive: raw@.physical_drives[d].drive,
                                partition: raw@.physical_drives[d].partitions[p],
                            },
                        ),
                    },
                }
            },
        ),
        r matches Resolution::Found(v) ==> located(raw@.physical_drives, v@),
{
    if mount.extents.len() != 1 {
        return Resolution::Fail(
            MigError::from_remark(
                MigErrorKind::InvParam,
                "Encountered invalid number of disk extents (expected 1) for volume",
            ),
        );
    }
    let extent = mount.extents[0];
    let d = match find_drive(&raw.physical_drives, extent.disk_index) {
        Some(d) => d,
        None => {
            return Resolution::Fail(
                MigError::from_remark(
                    MigErrorKind::EnumFailed,
                    "Could not find the physical drive of a disk extent",
                ),
            );
        },
    };
    let probe = &raw.physical_drives[d];
    let p = match find_partition(&probe.partitions, extent.start_offset) {
        Some(p) => p,
        None => {
            return Resolution::Fail(
                MigError::from_remark(
                    MigErrorKind::NotFound,
                    "Could not find partition for disk index and start offset",
                ),
            );
        },
    };
    let info = VolumeInfo {
        part_uuid: clone_opt(uuid),
        volume: raw.volumes[i].clone(),
        logical_drive: mount.drive.clone(),
        physical_drive: probe.drive.clone(),
        partition: probe.partitions[p],
    };
    proof {
        assert(raw@.physical_drives[d as int].partitions[p as int] == info@.partition);
        assert(carries(raw@.physical_drives, d as int, info@));
    }
    Resolution::Found(info)
}

/// Resolves volume `i`, given its partition UUID and whether the EFI drive
/// is still to be had.
fn resolve_one(raw: &Enumeration, uuid: &Option<String>, i: usize, efi_free: bool) -> (r:
    Resolution)
    requires
        i < raw.volumes.len(),
    ensures
        r.matches_spec(resolve_volume(raw@, opt_view(*uuid), i as int, efi_free)),
        r matches Resolution::Found(v) ==> located(raw@.physical_drives, v@),
{
    let volume = &raw.volumes[i];
    if !is_usable(volume.drive_type) {
        return Resolution::Skip;
    }
    match &volume.drive_letter {
        Some(letter) => match find_mount(&raw.logical_drives, letter) {
            Some(k) => resolve_on(raw, uuid, i, &raw.logical_drives[k]),
            None => Resolution::Fail(
                MigError::from_remark(
                    MigErrorKind::EnumFailed,
                    "Could not find the logical drive of a volume",
                ),
            ),
        },
        None => {
            if volume.system && efi_free {
                match &raw.efi_drive {
                    Some(m) => resolve_on(raw, uuid, i, m),
                    None => Resolution::Skip,
                }
            } else {
                Resolution::Skip
            }
        },
    }
}

/// Whether volume `i` takes the EFI drive.
fn does_take_efi(raw: &Enumeration, i: usize, efi_free: bool) -> (r: bool)
    requires
        i < raw.volumes.len(),
    ensures
        r == takes_efi(raw@, i as int, efi_free),
{
    let volume = &raw.volumes[i];
    is_usable(volume.drive_type) && volume.drive_letter.is_none() && volume.system && efi_free
        && raw.efi_drive.is_some()
}

/// Builds the volume infos of an enumeration from its volumes and the
/// partition UUID of each, in order. Stops at the first volume that cannot
/// be resolved, with the kind that `resolve_volume` gives; `InvParam`
/// where `uuids` is not as long as the list of volumes.
pub fn assemble(raw: &Enumeration, uuids: &Vec<Option<String>>) -> (r: Result<
    Vec<VolumeInfo>,
    MigError,
>)
    ensures
        uuids.len() != raw.volumes.len() ==> r is Err && r->Err_0.spec_kind()
            == MigErrorKind::InvParam,
        uuids.len() == raw.volumes.len() ==> match r {
            Ok(v) => assemble_spec(raw@, opts_view(uuids@)) == Ok::<
                Seq<VolumeInfoView>,
                MigErrorKind,
            >(infos_view(v@)),
            Err(e) => assemble_spec(raw@, opts_view(uuids@)) == Err::<
                Seq<VolumeInfoView>,
                MigErrorKind,
            >(e.spec_kind()),
        },
        r matches Ok(v) ==> forall|i: int|
            0 <= i < v.len() ==> #[trigger] located(raw@.physical_drives, infos_view(v@)[i]),
{
    if uuids.len() != raw.volumes.len() {
        return Err(
            MigError::from_remark(MigErrorKind::InvParam, "One partition UUID per volume is needed"),
        );
    }
    let mut out: Vec<VolumeInfo> = Vec::new();
    let mut efi_free = true;
    let mut i: usize = 0;
    assert(infos_view(out@) =~= Seq::<VolumeInfoView>::empty());
    while i < raw.volumes.len()
        invariant
            i <= raw.volumes.len(),
            uuids.len() == raw.volumes.len(),
            assemble_spec(raw@, opts_view(uuids@)) == assemble_from(
                raw@,
                opts_view(uuids@),
                i as int,
                efi_free,
                infos_view(out@),
            ),
            forall|j: int|
                0 <= j < out.len() ==> #[trigger] located(
                    raw@.physical_drives,
                    infos_view(out@)[j],
                ),
        decreases raw.volumes.len() - i,
    {
        let ghost before = infos_view(out@);
        let takes = does_take_efi(raw, i, efi_free);
        match resolve_one(raw, &uuids[i], i, efi_free) {
            Resolution::Fail(e) => {
                return Err(e);
            },
            Resolution::Skip => {},
            Resolution::Found(v) => {
                out.push(v);
                proof {
                    assert(infos_view(out@) =~= before.push(v@));
                }
            },
        }
        efi_free = efi_free && !takes;
        i += 1;
    }
    Ok(out)
}


/// Whether no two of the drives share an index.
fn distinct_drives(ds: &Vec<DriveProbe>) -> (r: bool)
    ensures
        r == (forall|i: int, j: int|
            0 <= i < j < ds.len() ==> drives_view(ds@)[i].drive.index != drives_view(
                ds@,
            )[j].drive.index),
{
    let mut j: usize = 0;
    while j < ds.len()
        invariant
            j <= ds.len(),
            forall|a: int, b: int|
                0 <= a < b < j ==> drives_view(ds@)[a].drive.index != drives_view(
                    ds@,
                )[b].drive.index,
        decreases ds.len() - j,
    {
        let mut i: usize = 0;
        while i < j
            invariant
                i <= j,
                j < ds.len(),
                forall|a: int|
                    0 <= a < i ==> drives_view(ds@)[a].drive.index != drives_view(
                        ds@,
                    )[j as int].drive.index,
            decreases j - i,
        {
            if ds[i].drive.index == ds[j].drive.index {
                assert(drives_view(ds@)[i as int].drive.index == drives_view(
                    ds@,
                )[j as int].drive.index);
                return false;
            }
            i += 1;
        }
        j += 1;
    }
    true
}

/// Whether no two of the partitions share an index.
fn distinct_partitions(ps: &Vec<Partition>) -> (r: bool)
    ensures
        r == (forall|i: int, j: int|
            0 <= i < j < ps.len() ==> ps@[i].part_index != ps@[j].part_index),
{
    let mut j: usize = 0;
    while j < ps.len()
        invariant
            j <= ps.len(),
            forall|a: int, b: int| 0 <= a < b < j ==> ps@[a].part_index != ps@[b].part_index,
        decreases ps.len() - j,
    {
        let mut i: usize = 0;
        while i < j
            invariant
                i <= j,
                j < ps.len(),
                forall|a: int| 0 <= a < i ==> ps@[a].part_index != ps@[j as int].part_index,
            decreases j - i,
        {
            if ps[i].part_index == ps[j].part_index {
                return false;
            }
            i += 1;
        }
        j += 1;
    }
    true
}

impl Enumeration {
    /// Whether no two drives share an index and on no drive two partitions
    /// share an index.
    pub fn is_valid(&self) -> (r: bool)
        ensures
            r == self@.valid(),
    {
        if !distinct_drives(&self.physical_drives) {
            return false;
        }
        let mut k: usize = 0;
        while k < self.physical_drives.len()
            invariant
                k <= self.physical_drives.len(),
                forall|d: int, i: int, j: int|
                    0 <= d < k && 0 <= i < j < self@.physical_drives[d].partitions.len()
                        ==> self@.physical_drives[d].partitions[i].part_index
                        != self@.physical_drives[d].partitions[j].part_index,
            decreases self.physical_drives.len() - k,
        {
            if !distinct_partitions(&self.physical_drives[k].partitions) {
                assert(self@.physical_drives[k as int].partitions
                    == self.physical_drives[k as int].partitions@);
                return false;
            }
            k += 1;
        }
        true
    }
}

/// The partition UUID of each volume, read from its identifier.
fn read_uuids(volumes: &Vec<Volume>) -> (r: Vec<Option<String>>)
    ensures
        r.len() == volumes.len(),
        opts_view(r@) == volume_uuids(volumes_view(volumes@)),
{
    let mut out: Vec<Option<String>> = Vec::new();
    let mut i: usize = 0;
    while i < volumes.len()
        invariant
            i <= volumes.len(),
            out.len() == i,
            forall|j: int|
                0 <= j < i ==> opt_view(out@[j]) == first_capture(
                    VOL_UUID_REGEX@,
                    volumes@[j].device_id@,
                ),
        decreases volumes.len() - i,
    {
        let uuid = capture_first(VOL_UUID_REGEX, volumes[i].device_id.as_str());
        out.push(uuid);
        i += 1;
    }
    assert(opts_view(out@) =~= volume_uuids(volumes_view(volumes@)));
    out
}

/// Decides `single_mounts`.
fn has_single_mounts(volumes: &Vec<VolumeInfo>) -> (r: bool)
    ensures
        r == single_mounts(infos_view(volumes@)),
{
    let ghost vs = infos_view(volumes@);
    let mut j: usize = 0;
    while j < volumes.len()
        invariant
            j <= volumes.len(),
            vs == infos_view(volumes@),
            forall|a: int, b: int|
                0 <= a < b < j ==> !same_partition(#[trigger] vs[a], #[trigger] vs[b]),
        decreases volumes.len() - j,
    {
        let mut i: usize = 0;
        while i < j
            invariant
                i <= j < volumes.len(),
                vs == infos_view(volumes@),
                forall|a: int| 0 <= a < i ==> !same_partition(#[trigger] vs[a], vs[j as int]),
            decreases j - i,
        {
            if volumes[i].physical_drive.index == volumes[j].physical_drive.index
                && volumes[i].partition.part_index == volumes[j].partition.part_index {
                assert(same_partition(vs[i as int], vs[j as int]));
                return false;
            }
            i += 1;
        }
        j += 1;
    }
    true
}

/// The first volume info at or after `from` that is the system volume.
pub open spec fn first_system(vols: Seq<VolumeInfoView>, from: int) -> Option<int>
    decreases vols.len() - from,
{
    if from < 0 || from >= vols.len() {
        None
    } else if vols[from].volume.system {
        Some(from)
    } else {
        first_system(vols, from + 1)
    }
}

/// Whether volume `k` is the one that carries `path`: `path` lies within
/// its mount point, no volume that carries `path` has a longer mount
/// point, and none before it has one as long.
pub open spec fn is_best_mount(vols: Seq<VolumeInfoView>, path: Seq<char>, k: int) -> bool {
    &&& 0 <= k < vols.len()
    &&& path_within(vols[k].logical_drive.name, path)
    &&& forall|j: int|
        0 <= j < vols.len() && path_within(#[trigger] vols[j].logical_drive.name, path)
            ==> vols[j].logical_drive.name.len() <= vols[k].logical_drive.name.len()
    &&& forall|j: int|
        0 <= j < k && path_within(#[trigger] vols[j].logical_drive.name, path)
            ==> vols[j].logical_drive.name.len() < vols[k].logical_drive.name.len()
}

/// The block topology of a host: its physical drives with their
/// partitions, and the mounted volumes with the partition and drive that
/// carry each.
#[derive(Debug)]
pub struct DriveInfo {
    drives: Vec<DriveProbe>,
    volumes: Vec<VolumeInfo>,
}

impl DriveInfo {
    /// The physical drives with their enumerated partitions.
    pub closed spec fn drives(&self) -> Seq<DriveProbeView> {
        drives_view(self.drives@)
    }

    /// The mounted volumes, in the order of the enumeration.
    pub closed spec fn volumes(&self) -> Seq<VolumeInfoView> {
        infos_view(self.volumes@)
    }

    /// The invariant of a topology: see `topology_wf`.
    #[verifier::type_invariant]
    pub closed spec fn wf(&self) -> bool {
        topology_wf(self.drives(), self.volumes())
    }

    /// Builds the topology from one enumeration: see `topology_of`.
    pub fn init(raw: Enumeration) -> (r: Result<DriveInfo, MigError>)
        ensures
            match r {
                Ok(d) => {
                    &&& topology_of(raw@) == Ok::<Seq<VolumeInfoView>, MigErrorKind>(d.volumes())
                    &&& d.drives() == raw@.physical_drives
                    &&& d.wf()
                },
                Err(e) => topology_of(raw@) == Err::<Seq<VolumeInfoView>, MigErrorKind>(
                    e.spec_kind(),
                ),
            },
    {
        if !raw.is_valid() {
            return Err(
                MigError::from_remark(
                    MigErrorKind::InvParam,
                    "Two drives or two partitions of a drive share an index",
                ),
            );
        }
        let uuids = read_uuids(&raw.volumes);
        match assemble(&raw, &uuids) {
            Ok(volumes) => {
                if !has_single_mounts(&volumes) {
                    return Err(
                        MigError::from_remark(
                            MigErrorKind::InvParam,
                            "Two volumes are mounted from one partition",
                        ),
                    );
                }
                Ok(DriveInfo { drives: raw.physical_drives, volumes })
            },
            Err(e) => Err(e),
        }
    }

    /// Builds the topology from one enumeration, as `init` does.
    pub fn new(raw: Enumeration) -> (r: Result<DriveInfo, MigError>)
        ensures
            match r {
                Ok(d) => {
                    &&& topology_of(raw@) == Ok::<Seq<VolumeInfoView>, MigErrorKind>(d.volumes())
                    &&& d.drives() == raw@.physical_drives
                    &&& d.wf()
                },
                Err(e) => topology_of(raw@) == Err::<Seq<VolumeInfoView>, MigErrorKind>(
                    e.spec_kind(),
                ),
            },
    {
        DriveInfo::init(raw)
    }

    /// The number of mounted volumes.
    pub fn volume_count(&self) -> (n: usize)
        ensures
            n == self.volumes().len(),
    {
        self.volumes.len()
    }

    /// The mounted volume at position `i`.
    pub fn volume(&self, i: usize) -> (v: &VolumeInfo)
        requires
            i < self.volumes().len(),
        ensures
            v@ == self.volumes()[i as int],
    {
        &self.volumes[i]
    }

    /// The first system (EFI) volume; `NotFound` where there is none.
    pub fn for_efi_drive(&self) -> (r: Result<VolumeInfo, MigError>)
        ensures
            match r {
                Ok(v) => first_system(self.volumes(), 0) matches Some(k) && v@
                    == self.volumes()[k],
                Err(e) => first_system(self.volumes(), 0) is None && e.spec_kind()
                    == MigErrorKind::NotFound,
            },
    {
        let mut i: usize = 0;
        while i < self.volumes.len()
            invariant
                i <= self.volumes.len(),
                first_system(self.volumes(), 0) == first_system(self.volumes(), i as int),
            decreases self.volumes.len() - i,
        {
            if self.volumes[i].volume.system {
                return Ok(self.volumes[i].clone());
            }
            i += 1;
        }
        Err(MigError::from_remark(MigErrorKind::NotFound, "Could not find EFI / System drive"))
    }

    /// The position of the volume that carries `path`: the one with the
    /// longest mount point that `path` lies within, the first of them
    /// where several are as long.
    pub fn carrier_of(&self, path: &str) -> (r: Option<usize>)
        ensures
            match r {
                Some(k) => is_best_mount(self.volumes(), path@, k as int),
                None => forall|j: int|
                    0 <= j < self.volumes().len() ==> !path_within(
                        #[trigger] self.volumes()[j].logical_drive.name,
                        path@,
                    ),
            },
    {
        let target = chars_of(path);
        let mut best: Option<usize> = None;
        let mut best_len: usize = 0;
        let mut i: usize = 0;
        while i < self.volumes.len()
            invariant
                i <= self.volumes.len(),
                target@ == path@,
                match best {
                    Some(k) => {
                        &&& k < i
                        &&& best_len == self.volumes()[k as int].logical_drive.name.len()
                        &&& path_within(self.volumes()[k as int].logical_drive.name, path@)
                        &&& forall|j: int|
                            0 <= j < i && path_within(
                                #[trigger] self.volumes()[j].logical_drive.name,
                                path@,
                            ) ==> self.volumes()[j].logical_drive.name.len() <= best_len
                        &&& forall|j: int|
                            0 <= j < k && path_within(
                                #[trigger] self.volumes()[j].logical_drive.name,
                                path@,
                            ) ==> self.volumes()[j].logical_drive.name.len() < best_len
                    },
                    None => forall|j: int|
                        0 <= j < i ==> !path_within(
                            #[trigger] self.volumes()[j].logical_drive.name,
                            path@,
                        ),
                },
            decreases self.volumes.len() - i,
        {
            let mount = chars_of(self.volumes[i].logical_drive.name.as_str());
            assert(mount@ == self.volumes()[i as int].logical_drive.name);
            if chars_within(&mount, &target) {
                if best.is_none() || mount.len() > best_len {
                    best = Some(i);
                    best_len = mount.len();
                }
            }
            i += 1;
        }
        best
    }

    /// The volume that carries `path`, chosen as `carrier_of` does;
    /// `NotFound` where `path` lies within no mount point.
    pub fn from_path(&self, path: &str) -> (r: Result<VolumeInfo, MigError>)
        ensures
            match r {
                Ok(v) => exists|k: int|
                    is_best_mount(self.volumes(), path@, k) && v@ == #[trigger] self.volumes()[k],
                Err(e) => e.spec_kind() == MigErrorKind::NotFound && forall|j: int|
                    0 <= j < self.volumes().len() ==> !path_within(
                        #[trigger] self.volumes()[j].logical_drive.name,
                        path@,
                    ),
            },
    {
        match self.carrier_of(path) {
            Some(k) => Ok(self.volumes[k].clone()),
            None => Err(
                MigError::from_remark(MigErrorKind::NotFound, "No logical drive found for path"),
            ),
        }
    }
}

/// In a sound topology every mounted volume lies on exactly one drive:
/// one drive of the topology is the drive of the volume and lists its
/// partition, and no other drive has that drive's index.
pub proof fn lemma_volume_on_exactly_one_drive(d: DriveInfo, i: int)
    requires
        d.wf(),
        0 <= i < d.volumes().len(),
    ensures
        exists|k: int|
            {
                &&& #[trigger] carries(d.drives(), k, d.volumes()[i])
                &&& forall|m: int|
                    0 <= m < d.drives().len() && m != k ==> #[trigger] d.drives()[m].drive.index
                        != d.volumes()[i].physical_drive.index
            },
{
    assert(located(d.drives(), d.volumes()[i]));
    let k = choose|k: int| carries(d.drives(), k, d.volumes()[i]);
    assert forall|m: int| 0 <= m < d.drives().len() && m != k implies #[trigger] d.drives()[m].drive.index
        != d.volumes()[i].physical_drive.index by {
        if m < k {
            assert(d.drives()[m].drive.index != d.drives()[k].drive.index);
        } else {
            assert(d.drives()[k].drive.index != d.drives()[m].drive.index);
        }
    }
}

/// In a sound topology a partition has at most one mount: two mounted
/// volumes are never mounted from the same partition of the same drive.
pub proof fn lemma_one_mount_for_each_partition(d: DriveInfo, i: int, j: int)
    requires
        d.wf(),
        0 <= i < d.volumes().len(),
        0 <= j < d.volumes().len(),
        i != j,
    ensures
        !same_partition(d.volumes()[i], d.volumes()[j]),
{
    if i < j {
        assert(!same_partition(d.volumes()[i], d.volumes()[j]));
    } else {
        assert(!same_partition(d.volumes()[j], d.volumes()[i]));
    }
}

/// A path begins with the mount point of the volume that carries it.
pub proof fn lemma_path_begins_with_mount(vols: Seq<VolumeInfoView>, path: Seq<char>, k: int)
    requires
        is_best_mount(vols, path, k),
    ensures
        vols[k].logical_drive.name.is_prefix_of(path),
        vols[k].logical_drive.name.len() > 0,
{
}

} // verus!
