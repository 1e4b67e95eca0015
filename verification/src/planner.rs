//! The plan of stage 1: which files are staged where, what the hand-over
//! record holds, and how the boot configuration is changed. The plan is
//! made from the facts about the host alone; nothing is touched.

use vstd::prelude::*;
use vstd::string::*;

use crate::boot_manager::{
    backups_spec, changes_spec, contains_str, from_boot_type, join_path, manager_for, path_join,
    setup_plan, BootManager, BootProbe, Config, Feasibility, MIG_INITRD_NAME, MIG_KERNEL_NAME,
};
use crate::defs::BootType;
use crate::device_profile::DeviceProfile;
use crate::devices::{clone_opt, opt_view};
use crate::ensured_commands::{
    EnsuredCommands, GRUB_REBOOT_CMD, GRUB_UPDT_CMD, MISSING_CMD_REMARK,
};
use crate::error::{MigError, MigErrorKind};
use crate::migrate_info::{pairs_view, wifis_view, MigrateInfo, MigrateInfoView, WifiConfig};
use crate::stage1::{copies_view, CopyOp, CopyOpView, Stage1Plan, Stage1PlanView};
use crate::stage2_config::{
    mount_specs_view, MountSpec, MountSpecView, Stage2ConfigBuilder, Stage2ConfigView,
    BOOT_MOUNT_DIR, STAGE2_CFG_FILE,
};
use crate::stage2_text::{lemma_pair_pieces_push, pair_pieces, serialize_spec};
use crate::text::{
    chars_of, chars_within, decimal, is_separator, path_within, push_decimal, str_eq, string_of,
    strings_view,
};

verus! {

/// Where stage 2 mounts the root partition of the old system, where it
/// needs it.
pub const ROOT_MOUNT_DIR: &'static str = "/mnt/root";

/// The name under which the appliance image is staged.
pub const BALENA_IMAGE_NAME: &'static str = "balena.img.gz";

/// The name under which the appliance configuration is staged.
pub const BALENA_CONFIG_NAME: &'static str = "config.json";

/// The start of the names under which the network manager profiles are
/// staged; the number of the profile follows.
pub const NWMGR_FILE_PREFIX: &'static str = "system-connection-";

/// The path below the mount point `new` that the file has whose path
/// below the mount point `old` is `path`.
pub open spec fn rebased(path: Seq<char>, old: Seq<char>, new: Seq<char>) -> Seq<char> {
    let rest = path.skip(old.len() as int);
    if rest.len() == 0 {
        new
    } else if is_separator(rest[0]) {
        new + rest
    } else {
        new + "/"@ + rest
    }
}

/// Where stage 2 finds a file.
pub struct Stage2Path {
    /// The path of the file.
    pub path: Seq<char>,
    /// Whether the file lies on the root partition.
    pub root: bool,
}

/// The path under which stage 2 finds the file that stage 1 has at
/// `path`, and whether stage 2 must mount the root partition for it. The
/// file lies on the boot partition, which stage 2 mounts at
/// `BOOT_MOUNT_DIR`, or else on the root partition, which it mounts at
/// `ROOT_MOUNT_DIR`; `None` for a file on neither.
pub open spec fn to_stage2(path: Seq<char>, boot_mount: Seq<char>, root_mount: Seq<char>)
    -> Option<Stage2Path> {
    if path_within(boot_mount, path) {
        Some(Stage2Path { path: rebased(path, boot_mount, BOOT_MOUNT_DIR@), root: false })
    } else if path_within(root_mount, path) {
        Some(Stage2Path { path: rebased(path, root_mount, ROOT_MOUNT_DIR@), root: true })
    } else {
        None
    }
}

/// Whether stage 2 finds every one of the files.
pub open spec fn all_translate(paths: Seq<Seq<char>>, boot_mount: Seq<char>, root_mount: Seq<char>)
    -> bool {
    forall|i: int|
        0 <= i < paths.len() ==> (#[trigger] to_stage2(paths[i], boot_mount, root_mount)) is Some
}

/// The paths under which stage 2 finds the files.
pub open spec fn translated(paths: Seq<Seq<char>>, boot_mount: Seq<char>, root_mount: Seq<char>)
    -> Seq<Seq<char>> {
    Seq::new(paths.len(), |i: int| to_stage2(paths[i], boot_mount, root_mount)->0.path)
}

/// Whether stage 2 must mount the root partition for one of the files.
pub open spec fn uses_root(paths: Seq<Seq<char>>, boot_mount: Seq<char>, root_mount: Seq<char>)
    -> bool {
    exists|i: int|
        0 <= i < paths.len() && (#[trigger] to_stage2(paths[i], boot_mount, root_mount)) is Some
            && to_stage2(paths[i], boot_mount, root_mount)->0.root
}

/// The path below `new` of the file at `path` below `old`.
fn rebase(path: &Vec<char>, old_len: usize, new: &str) -> (r: String)
    requires
        old_len <= path.len(),
    ensures
        r@ == (if path@.skip(old_len as int).len() == 0 {
            new@
        } else if is_separator(path@.skip(old_len as int)[0]) {
            new@ + path@.skip(old_len as int)
        } else {
            new@ + "/"@ + path@.skip(old_len as int)
        }),
{
    let mut rest: Vec<char> = Vec::new();
    let mut i: usize = old_len;
    while i < path.len()
        invariant
            old_len <= i <= path.len(),
            rest@ == path@.subrange(old_len as int, i as int),
        decreases path.len() - i,
    {
        rest.push(path[i]);
        assert(path@.subrange(old_len as int, i as int).push(path@[i as int]) =~= path@.subrange(
            old_len as int,
            i + 1,
        ));
        i += 1;
    }
    assert(rest@ =~= path@.skip(old_len as int));
    let mut r = String::from_str(new);
    if rest.len() == 0 {
        return r;
    }
    if !(rest[0] == '/' || rest[0] == '\\') {
        r.append("/");
    }
    let tail = string_of(&rest);
    r.append(tail.as_str());
    r
}

/// Decides `to_stage2`.
pub fn translate(path: &str, boot_mount: &str, root_mount: &str) -> (r: Option<(String, bool)>)
    ensures
        match r {
            Some((p, root)) => to_stage2(path@, boot_mount@, root_mount@) == Some(
                Stage2Path { path: p@, root },
            ),
            None => to_stage2(path@, boot_mount@, root_mount@) is None,
        },
{
    let p = chars_of(path);
    let b = chars_of(boot_mount);
    if chars_within(&b, &p) {
        return Some((rebase(&p, b.len(), BOOT_MOUNT_DIR), false));
    }
    let r = chars_of(root_mount);
    if chars_within(&r, &p) {
        return Some((rebase(&p, r.len(), ROOT_MOUNT_DIR), true));
    }
    None
}

/// The paths under which stage 2 finds the files, and whether it must
/// mount the root partition for one of them; `None` where it cannot find
/// one of them.
pub fn translate_all(paths: &Vec<String>, boot_mount: &str, root_mount: &str) -> (r: Option<
    (Vec<String>, bool),
>)
    ensures
        match r {
            Some((t, root)) => all_translate(strings_view(paths@), boot_mount@, root_mount@)
                && strings_view(t@) == translated(strings_view(paths@), boot_mount@, root_mount@)
                && root == uses_root(strings_view(paths@), boot_mount@, root_mount@),
            None => !all_translate(strings_view(paths@), boot_mount@, root_mount@),
        },
{
    let ghost ps = strings_view(paths@);
    let mut out: Vec<String> = Vec::new();
    let mut root = false;
    let mut i: usize = 0;
    while i < paths.len()
        invariant
            i <= paths.len(),
            ps == strings_view(paths@),
            out.len() == i,
            forall|j: int|
                0 <= j < i ==> (#[trigger] to_stage2(ps[j], boot_mount@, root_mount@)) is Some,
            forall|j: int|
                0 <= j < i ==> (#[trigger] out@[j])@ == to_stage2(
                    ps[j],
                    boot_mount@,
                    root_mount@,
                )->0.path,
            root == (exists|j: int|
                0 <= j < i && (#[trigger] to_stage2(ps[j], boot_mount@, root_mount@)) is Some
                    && to_stage2(ps[j], boot_mount@, root_mount@)->0.root),
        decreases paths.len() - i,
    {
        match translate(paths[i].as_str(), boot_mount, root_mount) {
            Some((p, with_root)) => {
                let ghost before = root;
                out.push(p);
                root = root || with_root;
                proof {
                    let t = to_stage2(ps[i as int], boot_mount@, root_mount@);
                    assert(t is Some && t->0.root == with_root);
                    if before {
                        let j = choose|j: int|
                            0 <= j < i && (#[trigger] to_stage2(ps[j], boot_mount@, root_mount@))
                                is Some && to_stage2(ps[j], boot_mount@, root_mount@)->0.root;
                        assert(0 <= j < i + 1 && to_stage2(ps[j], boot_mount@, root_mount@) is Some
                            && to_stage2(ps[j], boot_mount@, root_mount@)->0.root);
                    }
                    if !root {
                        assert forall|j: int| 0 <= j < i + 1 implies !((#[trigger] to_stage2(
                            ps[j],
                            boot_mount@,
                            root_mount@,
                        )) is Some && to_stage2(ps[j], boot_mount@, root_mount@)->0.root) by {
                            if j < i {
                            }
                        }
                    }
                }
            },
            None => {
                assert(to_stage2(ps[i as int], boot_mount@, root_mount@) is None);
                return None;
            },
        }
        i += 1;
    }
    assert(strings_view(out@) =~= translated(ps, boot_mount@, root_mount@));
    Some((out, root))
}

/// A file that stage 2 finds at the path that `to_stage2` gives is one
/// that it can reach: it lies below `BOOT_MOUNT_DIR`, or below
/// `ROOT_MOUNT_DIR` where the root partition is needed.
pub proof fn lemma_translated_is_reachable(
    path: Seq<char>,
    boot_mount: Seq<char>,
    root_mount: Seq<char>,
)
    requires
        to_stage2(path, boot_mount, root_mount) is Some,
    ensures
        ({
            let t = to_stage2(path, boot_mount, root_mount)->0;
            if t.root {
                path_within(ROOT_MOUNT_DIR@, t.path)
            } else {
                path_within(BOOT_MOUNT_DIR@, t.path)
            }
        }),
{
    reveal_strlit("/mnt/root");
    reveal_strlit("/mnt/boot");
    reveal_strlit("/");
    assert(ROOT_MOUNT_DIR@.len() == 9);
    assert(BOOT_MOUNT_DIR@.len() == 9);
    assert("/"@.len() == 1);
    assert("/"@[0] == '/');
    let t = to_stage2(path, boot_mount, root_mount)->0;
    let (old, new) = if t.root {
        (root_mount, ROOT_MOUNT_DIR@)
    } else {
        (boot_mount, BOOT_MOUNT_DIR@)
    };
    let rest = path.skip(old.len() as int);
    assert(t.path == rebased(path, old, new));
    if rest.len() == 0 {
        assert(new.is_prefix_of(t.path));
    } else if is_separator(rest[0]) {
        assert((new + rest).subrange(0, new.len() as int) =~= new);
        assert((new + rest)[new.len() as int] == rest[0]);
    } else {
        assert((new + "/"@ + rest).subrange(0, new.len() as int) =~= new);
        assert((new + "/"@ + rest)[new.len() as int] == '/');
    }
}


/// The files that stage 1 stages in the directory of the boot files: the
/// kernel and the initramfs of stage 2, the appliance image, the
/// appliance configuration, and the network manager profiles, each under
/// a name of its own.
pub open spec fn copies_spec(info: MigrateInfoView, boot_dir: Seq<char>) -> Seq<CopyOpView> {
    seq![
        CopyOpView { from: info.kernel_info.path, to: join_path(boot_dir, MIG_KERNEL_NAME@) },
        CopyOpView { from: info.initrd_info.path, to: join_path(boot_dir, MIG_INITRD_NAME@) },
        CopyOpView { from: info.os_image_info.path, to: join_path(boot_dir, BALENA_IMAGE_NAME@) },
        CopyOpView { from: info.os_config_info.path, to: join_path(boot_dir, BALENA_CONFIG_NAME@) },
    ] + Seq::new(
        info.nwmgr_files.len(),
        |i: int|
            CopyOpView {
                from: info.nwmgr_files[i].path,
                to: join_path(boot_dir, NWMGR_FILE_PREFIX@ + decimal(i as nat)),
            },
    )
}

/// The files that the hand-over record names, as stage 1 has them: the
/// staged files but the kernel and the initramfs, then each changed boot
/// configuration file and its backup.
pub open spec fn referenced(copies: Seq<CopyOpView>, backups: Seq<(Seq<char>, Seq<char>)>) -> Seq<
    Seq<char>,
> {
    Seq::new((copies.len() - 2) as nat, |i: int| copies[i + 2].to) + pair_pieces(backups)
}

/// The pairs that the pieces from `from` on make, two by two.
pub open spec fn paired(t: Seq<Seq<char>>, from: int, n: nat) -> Seq<(Seq<char>, Seq<char>)> {
    Seq::new(n, |i: int| (t[from + 2 * i], t[from + 1 + 2 * i]))
}

/// What a plan is made from.
pub struct Facts {
    /// The facts about the host and the files of the migration.
    pub info: MigrateInfo,
    /// What the user asked for.
    pub config: Config,
    /// What was found out about the boot files.
    pub probe: BootProbe,
    /// The commands that were ensured.
    pub cmds: Map<Seq<char>, Seq<char>>,
    /// The profile of the device.
    pub profile: DeviceProfile,
}

impl Facts {
    /// The boot manager of the migration: that of the first boot type of
    /// the device.
    pub open spec fn manager(self) -> BootManager {
        manager_for(self.profile.supported_boot_types@[0])
    }

    /// The directory of the boot files.
    pub open spec fn boot_dir(self) -> Seq<char> {
        self.info.disk_info.boot_path@.path
    }

    /// The mount point of the boot partition.
    pub open spec fn boot_mount(self) -> Seq<char> {
        self.info.disk_info.boot_path@.mountpoint
    }

    /// The mount point of the root partition.
    pub open spec fn root_mount(self) -> Seq<char> {
        self.info.disk_info.root_path@.mountpoint
    }

    /// The changed boot configuration files, each with its backup: those
    /// that were known before, then those of the change that is planned.
    pub open spec fn backups(self) -> Seq<(Seq<char>, Seq<char>)> {
        let changes = changes_spec(
            self.manager().boot_type_view(),
            self.boot_dir(),
            self.config.kernel_opts@,
        );
        pairs_view(self.info.boot_cfg_bckup@) + backups_spec(
            changes,
            strings_view(self.probe.existing_files@),
            changes.len() as int,
        )
    }

    /// The files that the hand-over record names, as stage 1 has them.
    pub open spec fn paths(self) -> Seq<Seq<char>> {
        referenced(copies_spec(self.info@, self.boot_dir()), self.backups())
    }

    /// The same files, as stage 2 finds them.
    pub open spec fn stage2_paths(self) -> Seq<Seq<char>> {
        translated(self.paths(), self.boot_mount(), self.root_mount())
    }

    /// The partitions that stage 2 mounts besides the boot partition: the
    /// root partition, where one of the files lies on it.
    pub open spec fn mounts(self) -> Seq<MountSpecView> {
        if uses_root(self.paths(), self.boot_mount(), self.root_mount()) {
            seq![
                MountSpecView {
                    device: self.info.disk_info.root_path@.linux_part,
                    fstype: self.info.disk_info.root_path@.file_system.linux_name(),
                    mountpoint: ROOT_MOUNT_DIR@,
                },
            ]
        } else {
            Seq::empty()
        }
    }

    /// The hand-over record.
    pub open spec fn record(self) -> Stage2ConfigView {
        let k = self.info.nwmgr_files@.len() as int;
        let t = self.stage2_paths();
        Stage2ConfigView {
            flash_device: self.info.disk_info.drive_dev@,
            drive_size: self.info.disk_info.drive_size as nat,
            image_path: t[0],
            config_path: t[1],
            nwmgr_files: t.subrange(2, 2 + k),
            wifis: wifis_view(self.info.wifis@),
            fail_mode: self.config.fail_mode,
            log_device: opt_view(self.config.log_device),
            log_level: self.config.log_level,
            boot_backups: paired(t, 2 + k, self.backups().len()),
            boot_device: self.info.disk_info.boot_path@.linux_part,
            boot_fstype: self.info.disk_info.boot_path@.file_system.linux_name(),
            boot_uuid: self.info.disk_info.boot_path@.part_uuid,
            kernel_cmdline: self.config.kernel_opts@,
            boot_type: self.manager().boot_type_view(),
            mounts: self.mounts(),
        }
    }

    /// Why no plan can be made before the boot manager is asked. In this
    /// order: `InsufficientSpace` where the drive is smaller than the
    /// device needs; `InvParam` where the files of the migration lie on a
    /// partition that is the flash device itself; `Unsupported` where the
    /// device has no boot type; `NotImpl` for the Windows boot manager and
    /// for EFI.
    pub open spec fn early_error(self) -> Option<MigErrorKind> {
        if self.info.disk_info.drive_size < self.profile.min_drive_size {
            Some(MigErrorKind::InsufficientSpace)
        } else if self.info.disk_info.work_path@.linux_part == self.info.disk_info.drive_dev@ {
            Some(MigErrorKind::InvParam)
        } else if self.profile.supported_boot_types@.len() == 0 {
            Some(MigErrorKind::Unsupported)
        } else if self.profile.supported_boot_types@[0] is MSWBootMgr {
            Some(MigErrorKind::NotImpl)
        } else if self.manager() is Efi {
            Some(MigErrorKind::NotImpl)
        } else {
            None
        }
    }

    /// The verdict of the boot manager on the host.
    pub open spec fn verdict(self) -> Feasibility {
        self.manager().verdict(self.info, self.config, self.probe, self.cmds)
    }

    /// The command for want of which no plan can be made, if it is for
    /// want of one: `update-grub` or `grub-reboot`, where nothing stood in
    /// the way before the boot manager was asked and its verdict is that
    /// the command is missing.
    pub open spec fn missing_tool(self) -> Option<Seq<char>> {
        if self.early_error() is Some {
            None
        } else if self.verdict() == Feasibility::MissingUpdateGrub {
            Some(GRUB_UPDT_CMD@)
        } else if self.verdict() == Feasibility::MissingGrubReboot {
            Some(GRUB_REBOOT_CMD@)
        } else {
            None
        }
    }

    /// The files that the plan creates: the staged files, then the
    /// hand-over record.
    pub open spec fn created(self) -> Seq<Seq<char>> {
        Seq::new(
            copies_spec(self.info@, self.boot_dir()).len(),
            |i: int| copies_spec(self.info@, self.boot_dir())[i].to,
        ).push(join_path(self.boot_dir(), STAGE2_CFG_FILE@))
    }

    /// Whether the plan would write over a file that exists: whether one
    /// of the files that it creates is among the files that are known to
    /// exist.
    pub open spec fn overwrites(self) -> bool {
        exists|i: int|
            0 <= i < self.created().len() && strings_view(self.probe.existing_files@).contains(
                #[trigger] self.created()[i],
            )
    }

    /// Why no plan can be made, if none can. In this order: what
    /// `early_error` says; the error of the verdict of the boot manager,
    /// where that is not `Feasible`; `InvParam` where the plan would write
    /// over a file that exists; `InvParam` where stage 2 would not find
    /// one of the files that the hand-over record names.
    pub open spec fn plan_error(self) -> Option<MigErrorKind> {
        if self.early_error() is Some {
            self.early_error()
        } else if self.verdict() != Feasibility::Feasible {
            self.verdict().error_kind()
        } else if self.overwrites() {
            Some(MigErrorKind::InvParam)
        } else if !all_translate(self.paths(), self.boot_mount(), self.root_mount()) {
            Some(MigErrorKind::InvParam)
        } else {
            None
        }
    }

    /// The plan: the files to stage, the hand-over record beside them,
    /// and the change of the boot configuration of the boot manager.
    pub open spec fn plan(self) -> Stage1PlanView {
        Stage1PlanView {
            copies: copies_spec(self.info@, self.boot_dir()),
            descriptor_path: join_path(self.boot_dir(), STAGE2_CFG_FILE@),
            descriptor_text: serialize_spec(self.record()),
            setup: setup_plan(
                self.manager().boot_type_view(),
                self.boot_dir(),
                self.config.kernel_opts@,
                strings_view(self.probe.existing_files@),
                self.cmds,
            ),
        }
    }
}

/// The files to stage: see `copies_spec`.
fn staged_copies(info: &MigrateInfo, boot_dir: &str) -> (r: Vec<CopyOp>)
    ensures
        copies_view(r@) == copies_spec(info@, boot_dir@),
{
    let mut out: Vec<CopyOp> = Vec::new();
    out.push(
        CopyOp { from: info.kernel_info.path.clone(), to: path_join(boot_dir, MIG_KERNEL_NAME) },
    );
    out.push(
        CopyOp { from: info.initrd_info.path.clone(), to: path_join(boot_dir, MIG_INITRD_NAME) },
    );
    out.push(
        CopyOp {
            from: info.os_image_info.path.clone(),
            to: path_join(boot_dir, BALENA_IMAGE_NAME),
        },
    );
    out.push(
        CopyOp {
            from: info.os_config_info.path.clone(),
            to: path_join(boot_dir, BALENA_CONFIG_NAME),
        },
    );
    let ghost head = seq![
        CopyOpView { from: info@.kernel_info.path, to: join_path(boot_dir@, MIG_KERNEL_NAME@) },
        CopyOpView { from: info@.initrd_info.path, to: join_path(boot_dir@, MIG_INITRD_NAME@) },
        CopyOpView { from: info@.os_image_info.path, to: join_path(boot_dir@, BALENA_IMAGE_NAME@) },
        CopyOpView {
            from: info@.os_config_info.path,
            to: join_path(boot_dir@, BALENA_CONFIG_NAME@),
        },
    ];
    assert(copies_view(out@) =~= head);
    let ghost files = info@.nwmgr_files;
    let mut i: usize = 0;
    while i < info.nwmgr_files.len()
        invariant
            i <= info.nwmgr_files.len(),
            files == info@.nwmgr_files,
            head.len() == 4,
            out.len() == 4 + i,
            forall|j: int| 0 <= j < 4 ==> (#[trigger] copies_view(out@)[j]) == head[j],
            forall|j: int|
                0 <= j < i ==> (#[trigger] copies_view(out@)[4 + j]) == (CopyOpView {
                    from: files[j].path,
                    to: join_path(boot_dir@, NWMGR_FILE_PREFIX@ + decimal(j as nat)),
                }),
        decreases info.nwmgr_files.len() - i,
    {
        let mut name = String::from_str(NWMGR_FILE_PREFIX);
        push_decimal(&mut name, i as u64);
        let ghost before = copies_view(out@);
        out.push(
            CopyOp {
                from: info.nwmgr_files[i].path.clone(),
                to: path_join(boot_dir, name.as_str()),
            },
        );
        proof {
            assert forall|j: int| 0 <= j < 4 + i implies (#[trigger] copies_view(out@)[j])
                == before[j] by {}
            assert forall|j: int| 0 <= j < i implies (#[trigger] copies_view(out@)[4 + j])
                == before[4 + j] by {}
        }
        i += 1;
    }
    proof {
        let tail = Seq::new(
            files.len(),
            |j: int|
                CopyOpView {
                    from: files[j].path,
                    to: join_path(boot_dir@, NWMGR_FILE_PREFIX@ + decimal(j as nat)),
                },
        );
        assert(copies_spec(info@, boot_dir@) == head + tail);
        assert(files.len() == info.nwmgr_files.len());
        assert forall|j: int| 0 <= j < 4 + files.len() implies copies_view(out@)[j] == (head
            + tail)[j] by {
            if j >= 4 {
                assert(copies_view(out@)[4 + (j - 4)] == tail[j - 4]);
            }
        }
        assert(copies_view(out@) =~= head + tail);
    }
    out
}

/// The files that the hand-over record names: see `referenced`.
fn referenced_paths(copies: &Vec<CopyOp>, backups: &Vec<(String, String)>) -> (r: Vec<String>)
    requires
        copies.len() >= 2,
    ensures
        strings_view(r@) == referenced(copies_view(copies@), pairs_view(backups@)),
{
    let mut out: Vec<String> = Vec::new();
    let mut i: usize = 2;
    while i < copies.len()
        invariant
            2 <= i <= copies.len(),
            out.len() == i - 2,
            forall|j: int| 0 <= j < i - 2 ==> (#[trigger] out@[j])@ == copies@[j + 2].to@,
        decreases copies.len() - i,
    {
        out.push(copies[i].to.clone());
        i += 1;
    }
    let ghost head = Seq::new(
        (copies.len() - 2) as nat,
        |i: int| copies_view(copies@)[i + 2].to,
    );
    assert(strings_view(out@) =~= head);
    let ghost bs = pairs_view(backups@);
    assert(bs.take(0) =~= Seq::<(Seq<char>, Seq<char>)>::empty());
    assert(strings_view(out@) =~= head + pair_pieces(bs.take(0)));
    let mut k: usize = 0;
    while k < backups.len()
        invariant
            k <= backups.len(),
            bs == pairs_view(backups@),
            strings_view(out@) == head + pair_pieces(bs.take(k as int)),
        decreases backups.len() - k,
    {
        let ghost before = strings_view(out@);
        out.push(backups[k].0.clone());
        out.push(backups[k].1.clone());
        proof {
            let pv = bs[k as int];
            lemma_pair_pieces_push(bs.take(k as int), pv);
            assert(bs.take(k as int).push(pv) =~= bs.take(k + 1));
            assert(pv.0 == backups@[k as int].0@ && pv.1 == backups@[k as int].1@);
            assert(strings_view(out@) =~= before + seq![pv.0, pv.1]);
            assert(strings_view(out@) =~= head + pair_pieces(bs.take(k + 1)));
        }
        k += 1;
    }
    assert(bs.take(backups.len() as int) =~= bs);
    out
}

/// A copy of the pairs.
fn clone_pairs(v: &Vec<(String, String)>) -> (r: Vec<(String, String)>)
    ensures
        pairs_view(r@) == pairs_view(v@),
{
    let mut out: Vec<(String, String)> = Vec::new();
    let mut i: usize = 0;
    while i < v.len()
        invariant
            i <= v.len(),
            out.len() == i,
            forall|j: int| 0 <= j < i ==> (#[trigger] out@[j]) == v@[j],
        decreases v.len() - i,
    {
        out.push((v[i].0.clone(), v[i].1.clone()));
        i += 1;
    }
    assert(pairs_view(out@) =~= pairs_view(v@));
    out
}

/// A copy of the wireless networks.
fn clone_wifis(v: &Vec<WifiConfig>) -> (r: Vec<WifiConfig>)
    ensures
        wifis_view(r@) == wifis_view(v@),
{
    let mut out: Vec<WifiConfig> = Vec::new();
    let mut i: usize = 0;
    while i < v.len()
        invariant
            i <= v.len(),
            out.len() == i,
            forall|j: int| 0 <= j < i ==> (#[trigger] out@[j]) == v@[j],
        decreases v.len() - i,
    {
        out.push(v[i].clone());
        i += 1;
    }
    assert(wifis_view(out@) =~= wifis_view(v@));
    out
}


/// The files that a plan with the given copies and hand-over record
/// creates.
pub open spec fn created_of(copies: Seq<CopyOpView>, descriptor_path: Seq<char>) -> Seq<Seq<char>> {
    Seq::new(copies.len(), |i: int| copies[i].to).push(descriptor_path)
}

/// Whether one of the files that the plan creates is among those that
/// exist.
fn writes_over(copies: &Vec<CopyOp>, descriptor_path: &String, existing: &Vec<String>) -> (r: bool)
    ensures
        r == (exists|i: int|
            0 <= i < created_of(copies_view(copies@), descriptor_path@).len() && strings_view(
                existing@,
            ).contains(#[trigger] created_of(copies_view(copies@), descriptor_path@)[i])),
{
    let ghost created = created_of(copies_view(copies@), descriptor_path@);
    let mut i: usize = 0;
    while i < copies.len()
        invariant
            i <= copies.len(),
            created == created_of(copies_view(copies@), descriptor_path@),
            forall|j: int| 0 <= j < i ==> !strings_view(existing@).contains(#[trigger] created[j]),
        decreases copies.len() - i,
    {
        if contains_str(existing, &copies[i].to) {
            assert(created[i as int] == copies@[i as int].to@);
            return true;
        }
        assert(created[i as int] == copies@[i as int].to@);
        i += 1;
    }
    let last = contains_str(existing, descriptor_path);
    assert(created[copies.len() as int] == descriptor_path@);
    last
}

/// The files that the plan of a migration creates: the staged files,
/// then the hand-over record. The caller finds out which of them exist.
pub fn created_paths(info: &MigrateInfo) -> (r: Vec<String>)
    ensures
        strings_view(r@) == created_of(
            copies_spec(info@, info.disk_info.boot_path@.path),
            join_path(info.disk_info.boot_path@.path, STAGE2_CFG_FILE@),
        ),
{
    let boot_dir = info.disk_info.boot_path.get_path();
    let copies = staged_copies(info, boot_dir);
    let mut out: Vec<String> = Vec::new();
    let mut i: usize = 0;
    while i < copies.len()
        invariant
            i <= copies.len(),
            out.len() == i,
            forall|j: int| 0 <= j < i ==> (#[trigger] out@[j])@ == copies@[j].to@,
        decreases copies.len() - i,
    {
        out.push(copies[i].to.clone());
        i += 1;
    }
    out.push(path_join(boot_dir, STAGE2_CFG_FILE));
    assert(strings_view(out@) =~= created_of(
        copies_view(copies@),
        join_path(boot_dir@, STAGE2_CFG_FILE@),
    ));
    out
}

/// The files that `Facts::created` lists are those that the plan creates,
/// in the order in which stage 1 creates them. So a plan that is made
/// creates no file that is known to exist, and what stage 1 removes after
/// a failure is nothing that was there before.
pub proof fn lemma_plan_creates_new_files(f: Facts)
    ensures
        f.created() == f.plan().created(),
        f.plan_error() is None ==> forall|i: int|
            0 <= i < f.plan().created().len() ==> !strings_view(f.probe.existing_files@).contains(
                #[trigger] f.plan().created()[i],
            ),
{
    assert(f.created() =~= f.plan().created());
    if f.plan_error() is None {
        assert forall|i: int| 0 <= i < f.plan().created().len() implies !strings_view(
            f.probe.existing_files@,
        ).contains(#[trigger] f.plan().created()[i]) by {
            assert(f.created()[i] == f.plan().created()[i]);
        }
    }
}

/// Stage 2 can reach every file that the planned hand-over record names.
pub proof fn lemma_record_reachable(f: Facts)
    requires
        all_translate(f.paths(), f.boot_mount(), f.root_mount()),
    ensures
        f.record().all_reachable(),
{
    let rec = f.record();
    let t = f.stage2_paths();
    let paths = f.paths();
    let k = f.info.nwmgr_files@.len() as int;
    let b = f.backups().len() as int;
    assert(copies_spec(f.info@, f.boot_dir()).len() == 4 + k);
    assert(pair_pieces(f.backups()).len() == 2 * b);
    assert(paths.len() == 2 + k + 2 * b);
    assert(t.len() == paths.len());
    assert forall|j: int| 0 <= j < t.len() implies rec.reaches(#[trigger] t[j]) by {
        let tr = to_stage2(paths[j], f.boot_mount(), f.root_mount());
        assert(tr is Some);
        lemma_translated_is_reachable(paths[j], f.boot_mount(), f.root_mount());
        assert(t[j] == tr->0.path);
        if tr->0.root {
            assert(uses_root(paths, f.boot_mount(), f.root_mount()));
            assert(rec.mounts.len() == 1);
            assert(rec.mounts[0].mountpoint == ROOT_MOUNT_DIR@);
            assert(path_within(rec.mounts[0].mountpoint, t[j]));
        }
    }
    assert(rec.reaches(t[0]));
    assert(rec.reaches(t[1]));
    assert forall|i: int| 0 <= i < rec.nwmgr_files.len() implies rec.reaches(
        #[trigger] rec.nwmgr_files[i],
    ) by {
        assert(rec.nwmgr_files[i] == t[2 + i]);
    }
    assert forall|i: int| 0 <= i < rec.boot_backups.len() implies rec.reaches(
        (#[trigger] rec.boot_backups[i]).0,
    ) && rec.reaches(rec.boot_backups[i].1) by {
        assert(rec.boot_backups[i].0 == t[2 + k + 2 * i]);
        assert(rec.boot_backups[i].1 == t[2 + k + 1 + 2 * i]);
    }
}

/// Plans stage 1 from the facts about the host, the wishes of the user,
/// what was found out about the boot files, the commands that were
/// ensured, and the profile of the device: see `Facts::plan`. Nothing is
/// touched.
///
/// Fails as `Facts::plan_error` says; where it fails for want of a
/// command, the remark of the error ends in the name of the command.
/// Stage 2 can reach every file that the hand-over record of a plan
/// names, and the plan writes over no file that is known to exist.
pub fn plan_migration(
    info: &MigrateInfo,
    config: &Config,
    probe: &BootProbe,
    cmds: &EnsuredCommands,
    profile: &DeviceProfile,
) -> (r: Result<Stage1Plan, MigError>)
    ensures
        ({
            let f = Facts {
                info: *info,
                config: *config,
                probe: *probe,
                cmds: cmds@,
                profile: *profile,
            };
            match r {
                Ok(plan) => f.plan_error() is None && plan@ == f.plan()
                    && f.record().all_reachable(),
                Err(e) => f.plan_error() == Some(e.spec_kind()) && (f.missing_tool() matches Some(
                    tool,
                ) ==> e.spec_remark() == MISSING_CMD_REMARK@ + tool),
            }
        }),
{
    let ghost f = Facts { info: *info, config: *config, probe: *probe, cmds: cmds@, profile: *profile };
    if info.disk_info.drive_size < profile.min_drive_size {
        return Err(
            MigError::from_remark(
                MigErrorKind::InsufficientSpace,
                "the drive is too small for the device",
            ),
        );
    }
    if str_eq(info.disk_info.work_path.get_linux_part(), info.disk_info.drive_dev.as_str()) {
        return Err(
            MigError::from_remark(
                MigErrorKind::InvParam,
                "the files of the migration lie on the flash device itself",
            ),
        );
    }
    if profile.supported_boot_types.len() == 0 {
        return Err(
            MigError::from_remark(MigErrorKind::Unsupported, "the device has no boot type"),
        );
    }
    let boot_type = profile.supported_boot_types[0].clone();
    if let BootType::MSWBootMgr = boot_type {
        return Err(MigError::from(MigErrorKind::NotImpl));
    }
    let mut manager = from_boot_type(boot_type);
    let ghost fresh = manager;
    assert(fresh == f.manager());
    let verdict = match manager.feasibility(info, config, probe, cmds) {
        Ok(v) => v,
        Err(e) => {
            return Err(e);
        },
    };
    if let Some(e) = verdict.to_error() {
        return Err(e);
    }
    let boot_dir = info.disk_info.boot_path.get_path();
    let copies = staged_copies(info, boot_dir);
    let descriptor_path = path_join(boot_dir, STAGE2_CFG_FILE);
    let over = writes_over(&copies, &descriptor_path, &probe.existing_files);
    proof {
        assert(f.created() =~= created_of(copies_view(copies@), descriptor_path@));
        assert(over == f.overwrites());
    }
    if over {
        return Err(
            MigError::from_remark(
                MigErrorKind::InvParam,
                "a file that the migration would create exists already",
            ),
        );
    }
    let mut builder = Stage2ConfigBuilder::default();
    builder.boot_backups = clone_pairs(&info.boot_cfg_bckup);
    let fit = manager.can_migrate(info, config, probe, cmds, &mut builder);
    assert(fit == Ok::<bool, MigError>(true));
    assert(manager.boot_type_view() == fresh.boot_type_view());
    assert(manager.bootmgr_path() == Some(info.disk_info.boot_path));
    assert(manager.setup_error(cmds@) is None);
    let setup = match manager.setup(probe, cmds, &mut builder, config.kernel_opts.as_str()) {
        Ok(plan) => plan,
        Err(e) => {
            return Err(e);
        },
    };
    assert(pairs_view(builder.boot_backups@) == f.backups());
    let k = info.nwmgr_files.len();
    let b = builder.boot_backups.len();
    assert(copies.len() == 4 + k) by {
        assert(copies_view(copies@).len() == 4 + k);
    }
    let paths = referenced_paths(&copies, &builder.boot_backups);
    assert(strings_view(paths@) == f.paths());
    let (t, with_root) = match translate_all(
        &paths,
        info.disk_info.boot_path.get_mountpoint(),
        info.disk_info.root_path.get_mountpoint(),
    ) {
        Some(found) => found,
        None => {
            return Err(
                MigError::from_remark(
                    MigErrorKind::InvParam,
                    "a file of the migration lies out of reach of stage 2",
                ),
            );
        },
    };
    let ghost tv = strings_view(t@);
    assert(tv == f.stage2_paths());
    proof {
        assert(pair_pieces(f.backups()).len() == 2 * b);
        assert(f.paths().len() == 2 + k + 2 * b);
        assert(tv.len() == f.paths().len());
        assert(t.len() == tv.len());
        lemma_record_reachable(f);
    }
    // the files of the record, as stage 2 finds them
    let mut nwmgr_files: Vec<String> = Vec::new();
    let mut i: usize = 0;
    while i < k
        invariant
            i <= k,
            2 + k + 2 * b == t.len(),
            nwmgr_files.len() == i,
            forall|j: int| 0 <= j < i ==> (#[trigger] nwmgr_files@[j])@ == t@[2 + j]@,
        decreases k - i,
    {
        nwmgr_files.push(t[2 + i].clone());
        i += 1;
    }
    assert(strings_view(nwmgr_files@) =~= tv.subrange(2, 2 + k));
    let mut boot_backups: Vec<(String, String)> = Vec::new();
    let mut i: usize = 0;
    while i < b
        invariant
            i <= b,
            2 + k + 2 * b == t.len(),
            boot_backups.len() == i,
            forall|j: int|
                0 <= j < i ==> ((#[trigger] boot_backups@[j]).0@, boot_backups@[j].1@) == (
                    t@[2 + k + 2 * j]@,
                    t@[2 + k + 1 + 2 * j]@,
                ),
        decreases b - i,
    {
        let at = 2 + k + 2 * i;
        boot_backups.push((t[at].clone(), t[at + 1].clone()));
        i += 1;
    }
    assert(pairs_view(boot_backups@) =~= paired(tv, 2 + k, b as nat));
    let mut mounts: Vec<MountSpec> = Vec::new();
    if with_root {
        mounts.push(
            MountSpec {
                device: String::from_str(info.disk_info.root_path.get_linux_part()),
                fstype: String::from_str(info.disk_info.root_path.get_linux_fstype()),
                mountpoint: String::from_str(ROOT_MOUNT_DIR),
            },
        );
    }
    assert(mount_specs_view(mounts@) =~= f.mounts());
    builder.flash_device = Some(info.disk_info.drive_dev.clone());
    builder.drive_size = Some(info.disk_info.drive_size);
    builder.image_path = Some(t[0].clone());
    builder.config_path = Some(t[1].clone());
    builder.nwmgr_files = nwmgr_files;
    builder.wifis = clone_wifis(&info.wifis);
    builder.fail_mode = Some(config.fail_mode);
    builder.log_device = clone_opt(&config.log_device);
    builder.log_level = Some(config.log_level);
    builder.boot_backups = boot_backups;
    builder.mounts = mounts;
    assert(builder.is_complete());
    assert(builder.candidate()@ =~= f.record());
    let record = match builder.build() {
        Ok(record) => record,
        Err(e) => {
            return Err(e);
        },
    };
    let text = record.serialize();
    Ok(Stage1Plan { copies, descriptor_path, descriptor_text: text, setup })
}

} // verus!
