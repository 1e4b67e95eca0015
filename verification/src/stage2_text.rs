//! The text form of the hand-over record: a list of pieces of text, each
//! in a frame of its own. The first two pieces are the schema tag and the
//! version of the schema.

use vstd::prelude::*;
use vstd::string::*;

use crate::defs::{BootType, BootTypeView, FailMode, LogLevel, UEnvStrategy, UEnvStrategyView};
use crate::devices::opt_view;
use crate::error::{MigError, MigErrorKind};
use crate::framing::{
    frames, join_frames, lemma_decimal, lemma_unframes, parse_number, parse_u64, split_frames,
    unframes,
};
use crate::migrate_info::{pairs_view, wifis_view, WifiConfig, WifiConfigView};
use crate::stage2_config::{
    mount_specs_view, MountSpec, MountSpecView, Stage2Config, Stage2ConfigView,
};
use crate::text::{chars_of, decimal, push_decimal, str_eq, strings_view};

verus! {

/// The piece that every hand-over record begins with.
pub const SCHEMA_TAG: &'static str = "balena-migrate-stage2";

/// The version of the schema that this library writes and reads.
pub const SCHEMA_VERSION: u64 = 1;

/// The number of pieces before the lists.
pub const FIXED_PIECES: usize = 20;

/// The word for a failure mode.
pub open spec fn fail_word(m: FailMode) -> Seq<char> {
    match m {
        FailMode::Reboot => "reboot"@,
        FailMode::RescueShell => "rescue-shell"@,
        FailMode::Poweroff => "poweroff"@,
    }
}

/// The failure mode that a word stands for.
pub open spec fn word_fail(t: Seq<char>) -> Option<FailMode> {
    if t == "reboot"@ {
        Some(FailMode::Reboot)
    } else if t == "rescue-shell"@ {
        Some(FailMode::RescueShell)
    } else if t == "poweroff"@ {
        Some(FailMode::Poweroff)
    } else {
        None
    }
}

/// The word for a log level.
pub open spec fn level_word(l: LogLevel) -> Seq<char> {
    match l {
        LogLevel::Error => "error"@,
        LogLevel::Warn => "warn"@,
        LogLevel::Info => "info"@,
        LogLevel::Debug => "debug"@,
        LogLevel::Trace => "trace"@,
    }
}

/// The log level that a word stands for.
pub open spec fn word_level(t: Seq<char>) -> Option<LogLevel> {
    if t == "error"@ {
        Some(LogLevel::Error)
    } else if t == "warn"@ {
        Some(LogLevel::Warn)
    } else if t == "info"@ {
        Some(LogLevel::Info)
    } else if t == "debug"@ {
        Some(LogLevel::Debug)
    } else if t == "trace"@ {
        Some(LogLevel::Trace)
    } else {
        None
    }
}

/// The piece that says whether an optional text is there.
pub open spec fn flag_of(o: Option<Seq<char>>) -> Seq<char> {
    if o is Some {
        "1"@
    } else {
        "0"@
    }
}

/// The piece that holds an optional text; empty where there is none.
pub open spec fn text_of(o: Option<Seq<char>>) -> Seq<char> {
    match o {
        Some(s) => s,
        None => Seq::empty(),
    }
}

/// The optional text that a flag and a text stand for; `None` where the
/// flag is neither `1` nor `0`.
pub open spec fn opt_of(flag: Seq<char>, text: Seq<char>) -> Option<Option<Seq<char>>> {
    if flag == "1"@ {
        Some(Some(text))
    } else if flag == "0"@ {
        Some(None)
    } else {
        None
    }
}

/// The five pieces of a boot type: its word, the MMC index, the word of
/// the strategy, the kernel release name and the directory. The last
/// four mean something for U-Boot only.
pub open spec fn boot_type_pieces(bt: BootTypeView) -> Seq<Seq<char>> {
    match bt {
        BootTypeView::UBoot { mmc_index, uenv_strategy, bootmgr_subpath } => seq![
            "uboot"@,
            decimal(mmc_index as nat),
            match uenv_strategy {
                UEnvStrategyView::UName(_) => "uname"@,
                UEnvStrategyView::Manual => "manual"@,
            },
            match uenv_strategy {
                UEnvStrategyView::UName(u) => u,
                UEnvStrategyView::Manual => Seq::empty(),
            },
            bootmgr_subpath,
        ],
        BootTypeView::Grub => other_pieces("grub"@),
        BootTypeView::Efi => other_pieces("efi"@),
        BootTypeView::MSWEfi => other_pieces("msw-efi"@),
        BootTypeView::Raspi => other_pieces("raspi"@),
        BootTypeView::Raspi64 => other_pieces("raspi64"@),
        BootTypeView::MSWBootMgr => other_pieces("msw-bootmgr"@),
    }
}

/// The five pieces of a boot type that is not U-Boot.
pub open spec fn other_pieces(word: Seq<char>) -> Seq<Seq<char>> {
    seq![word, decimal(0), "manual"@, Seq::empty(), Seq::empty()]
}

/// The boot type that five pieces stand for.
pub open spec fn pieces_boot_type(
    word: Seq<char>,
    mmc: Seq<char>,
    strategy: Seq<char>,
    uname: Seq<char>,
    subpath: Seq<char>,
) -> Option<BootTypeView> {
    if word == "uboot"@ {
        match parse_number(mmc) {
            Some(n) => if n > u8::MAX {
                None
            } else if strategy == "uname"@ {
                Some(
                    BootTypeView::UBoot {
                        mmc_index: n as u8,
                        uenv_strategy: UEnvStrategyView::UName(uname),
                        bootmgr_subpath: subpath,
                    },
                )
            } else if strategy == "manual"@ {
                Some(
                    BootTypeView::UBoot {
                        mmc_index: n as u8,
                        uenv_strategy: UEnvStrategyView::Manual,
                        bootmgr_subpath: subpath,
                    },
                )
            } else {
                None
            },
            None => None,
        }
    } else if word == "grub"@ {
        Some(BootTypeView::Grub)
    } else if word == "efi"@ {
        Some(BootTypeView::Efi)
    } else if word == "msw-efi"@ {
        Some(BootTypeView::MSWEfi)
    } else if word == "raspi"@ {
        Some(BootTypeView::Raspi)
    } else if word == "raspi64"@ {
        Some(BootTypeView::Raspi64)
    } else if word == "msw-bootmgr"@ {
        Some(BootTypeView::MSWBootMgr)
    } else {
        None
    }
}

/// The pieces before the lists, in order: the schema tag and version, the
/// flash device and its size, the image, the configuration, the failure
/// mode, the log device and level, the boot partition with its file
/// system and UUID, the kernel command line and the boot type.
pub open spec fn fixed_pieces(c: Stage2ConfigView) -> Seq<Seq<char>> {
    seq![
        SCHEMA_TAG@,
        decimal(SCHEMA_VERSION as nat),
        c.flash_device,
        decimal(c.drive_size),
        c.image_path,
        c.config_path,
        fail_word(c.fail_mode),
        flag_of(c.log_device),
        text_of(c.log_device),
        level_word(c.log_level),
        c.boot_device,
        c.boot_fstype,
        flag_of(c.boot_uuid),
        text_of(c.boot_uuid),
        c.kernel_cmdline,
    ] + boot_type_pieces(c.boot_type)
}

/// The pieces of the wireless networks: for each its name, the flag of
/// its key, and its key.
pub open spec fn wifi_pieces(ws: Seq<WifiConfigView>) -> Seq<Seq<char>> {
    Seq::new(
        3 * ws.len(),
        |j: int|
            if j % 3 == 0 {
                ws[j / 3].ssid
            } else if j % 3 == 1 {
                flag_of(ws[j / 3].psk)
            } else {
                text_of(ws[j / 3].psk)
            },
    )
}

/// The pieces of the pairs: of each, the first and the second.
pub open spec fn pair_pieces(ps: Seq<(Seq<char>, Seq<char>)>) -> Seq<Seq<char>> {
    Seq::new(
        2 * ps.len(),
        |j: int|
            if j % 2 == 0 {
                ps[j / 2].0
            } else {
                ps[j / 2].1
            },
    )
}

/// The pieces of the mounts: for each its device, its file system and
/// its mount point.
pub open spec fn mount_pieces(ms: Seq<MountSpecView>) -> Seq<Seq<char>> {
    Seq::new(
        3 * ms.len(),
        |j: int|
            if j % 3 == 0 {
                ms[j / 3].device
            } else if j % 3 == 1 {
                ms[j / 3].fstype
            } else {
                ms[j / 3].mountpoint
            },
    )
}

/// The pieces of a hand-over record: the fixed pieces, then four lists,
/// each behind the number of its items. The lists are the network manager
/// profiles, the wireless networks, the boot configuration backups and
/// the mounts.
pub open spec fn encode(c: Stage2ConfigView) -> Seq<Seq<char>> {
    fixed_pieces(c) + seq![decimal(c.nwmgr_files.len())] + c.nwmgr_files + seq![
        decimal(c.wifis.len()),
    ] + wifi_pieces(c.wifis) + seq![decimal(c.boot_backups.len())] + pair_pieces(c.boot_backups)
        + seq![decimal(c.mounts.len())] + mount_pieces(c.mounts)
}

/// The number of items that the piece at `pos` announces, where `width`
/// pieces for each of them follow it.
pub open spec fn count_at(t: Seq<Seq<char>>, pos: int, width: int) -> Option<nat> {
    if 0 <= pos < t.len() {
        match parse_number(t[pos]) {
            Some(n) => if pos + 1 + width * n <= t.len() {
                Some(n)
            } else {
                None
            },
            None => None,
        }
    } else {
        None
    }
}

/// The wireless network whose three pieces begin at `at`.
pub open spec fn wifi_at(t: Seq<Seq<char>>, at: int) -> Option<WifiConfigView> {
    match opt_of(t[at + 1], t[at + 2]) {
        Some(psk) => Some(WifiConfigView { ssid: t[at], psk }),
        None => None,
    }
}

/// The list of texts at `pos`, and the position behind it.
pub open spec fn strs_at(t: Seq<Seq<char>>, pos: int) -> Option<(Seq<Seq<char>>, int)> {
    match count_at(t, pos, 1) {
        Some(n) => Some((t.subrange(pos + 1, pos + 1 + n), pos + 1 + n)),
        None => None,
    }
}

/// The list of wireless networks at `pos`, and the position behind it.
pub open spec fn wifis_at(t: Seq<Seq<char>>, pos: int) -> Option<(Seq<WifiConfigView>, int)> {
    match count_at(t, pos, 3) {
        Some(n) => if forall|i: int| 0 <= i < n ==> (#[trigger] wifi_at(t, pos + 1 + 3 * i)) is Some {
            Some((Seq::new(n, |i: int| wifi_at(t, pos + 1 + 3 * i)->0), pos + 1 + 3 * n))
        } else {
            None
        },
        None => None,
    }
}

/// The list of pairs at `pos`, and the position behind it.
pub open spec fn pairs_at(t: Seq<Seq<char>>, pos: int) -> Option<
    (Seq<(Seq<char>, Seq<char>)>, int),
> {
    match count_at(t, pos, 2) {
        Some(n) => Some(
            (Seq::new(n, |i: int| (t[pos + 1 + 2 * i], t[pos + 2 + 2 * i])), pos + 1 + 2 * n),
        ),
        None => None,
    }
}

/// The list of mounts at `pos`, and the position behind it.
pub open spec fn mounts_at(t: Seq<Seq<char>>, pos: int) -> Option<(Seq<MountSpecView>, int)> {
    match count_at(t, pos, 3) {
        Some(n) => Some(
            (
                Seq::new(
                    n,
                    |i: int|
                        MountSpecView {
                            device: t[pos + 1 + 3 * i],
                            fstype: t[pos + 2 + 3 * i],
                            mountpoint: t[pos + 3 + 3 * i],
                        },
                ),
                pos + 1 + 3 * n,
            ),
        ),
        None => None,
    }
}

/// The four lists behind the fixed pieces, where they are there and
/// nothing follows them.
pub open spec fn lists_at(t: Seq<Seq<char>>) -> Option<
    (Seq<Seq<char>>, Seq<WifiConfigView>, Seq<(Seq<char>, Seq<char>)>, Seq<MountSpecView>),
> {
    match strs_at(t, FIXED_PIECES as int) {
        Some((files, p1)) => match wifis_at(t, p1) {
            Some((wifis, p2)) => match pairs_at(t, p2) {
                Some((backups, p3)) => match mounts_at(t, p3) {
                    Some((mounts, p4)) => if p4 == t.len() {
                        Some((files, wifis, backups, mounts))
                    } else {
                        None
                    },
                    None => None,
                },
                None => None,
            },
            None => None,
        },
        None => None,
    }
}

/// The hand-over record that the pieces stand for.
///
/// `InvParam` where the pieces do not begin with the schema tag and a
/// version number; `Unsupported` where the version is not
/// `SCHEMA_VERSION`; `InvParam` where what follows is not a record of
/// that version.
pub open spec fn decode(t: Seq<Seq<char>>) -> Result<Stage2ConfigView, MigErrorKind> {
    if t.len() < 2 || t[0] != SCHEMA_TAG@ || parse_number(t[1]) is None {
        Err(MigErrorKind::InvParam)
    } else if parse_number(t[1]) != Some(SCHEMA_VERSION as nat) {
        Err(MigErrorKind::Unsupported)
    } else if t.len() < FIXED_PIECES {
        Err(MigErrorKind::InvParam)
    } else {
        match (
            parse_number(t[3]),
            word_fail(t[6]),
            opt_of(t[7], t[8]),
            word_level(t[9]),
            opt_of(t[12], t[13]),
            pieces_boot_type(t[15], t[16], t[17], t[18], t[19]),
            lists_at(t),
        ) {
            (
                Some(drive_size),
                Some(fail_mode),
                Some(log_device),
                Some(log_level),
                Some(boot_uuid),
                Some(boot_type),
                Some((nwmgr_files, wifis, boot_backups, mounts)),
            ) => Ok(
                Stage2ConfigView {
                    flash_device: t[2],
                    drive_size,
                    image_path: t[4],
                    config_path: t[5],
                    nwmgr_files,
                    wifis,
                    fail_mode,
                    log_device,
                    log_level,
                    boot_backups,
                    boot_device: t[10],
                    boot_fstype: t[11],
                    boot_uuid,
                    kernel_cmdline: t[14],
                    boot_type,
                    mounts,
                },
            ),
            _ => Err(MigErrorKind::InvParam),
        }
    }
}

/// The text of a hand-over record.
pub open spec fn serialize_spec(c: Stage2ConfigView) -> Seq<char> {
    frames(encode(c))
}

/// The hand-over record that a text stands for; `InvParam` where the text
/// is not made of frames, otherwise as `decode` says.
pub open spec fn parse_spec(text: Seq<char>) -> Result<Stage2ConfigView, MigErrorKind> {
    match unframes(text) {
        Some(t) => decode(t),
        None => Err(MigErrorKind::InvParam),
    }
}

impl Stage2ConfigView {
    /// Whether the record can be written down: the size of the drive, the
    /// number of items of each list, and the length of each piece of its
    /// text fit in 64 bits. Every record that a program holds does.
    pub open spec fn well_formed(self) -> bool {
        &&& self.drive_size <= u64::MAX
        &&& self.nwmgr_files.len() <= u64::MAX
        &&& self.wifis.len() <= u64::MAX
        &&& self.boot_backups.len() <= u64::MAX
        &&& self.mounts.len() <= u64::MAX
        &&& forall|i: int|
            0 <= i < encode(self).len() ==> (#[trigger] encode(self)[i]).len() <= u64::MAX
    }
}


/// The words of the failure modes differ, and so do those of the log
/// levels, of the boot types, of the strategies and of the flags.
proof fn lemma_words_differ()
    ensures
        "reboot"@ != "rescue-shell"@,
        "reboot"@ != "poweroff"@,
        "rescue-shell"@ != "poweroff"@,
        "error"@ != "warn"@,
        "error"@ != "info"@,
        "error"@ != "debug"@,
        "error"@ != "trace"@,
        "warn"@ != "info"@,
        "warn"@ != "debug"@,
        "warn"@ != "trace"@,
        "info"@ != "debug"@,
        "info"@ != "trace"@,
        "debug"@ != "trace"@,
        "1"@ != "0"@,
        "uname"@ != "manual"@,
        "uboot"@ != "grub"@,
        "uboot"@ != "efi"@,
        "uboot"@ != "msw-efi"@,
        "uboot"@ != "raspi"@,
        "uboot"@ != "raspi64"@,
        "uboot"@ != "msw-bootmgr"@,
        "grub"@ != "efi"@,
        "grub"@ != "msw-efi"@,
        "grub"@ != "raspi"@,
        "grub"@ != "raspi64"@,
        "grub"@ != "msw-bootmgr"@,
        "efi"@ != "msw-efi"@,
        "efi"@ != "raspi"@,
        "efi"@ != "raspi64"@,
        "efi"@ != "msw-bootmgr"@,
        "msw-efi"@ != "raspi"@,
        "msw-efi"@ != "raspi64"@,
        "msw-efi"@ != "msw-bootmgr"@,
        "raspi"@ != "raspi64"@,
        "raspi"@ != "msw-bootmgr"@,
        "raspi64"@ != "msw-bootmgr"@,
{
    reveal_strlit("reboot");
    reveal_strlit("rescue-shell");
    reveal_strlit("poweroff");
    reveal_strlit("error");
    reveal_strlit("warn");
    reveal_strlit("info");
    reveal_strlit("debug");
    reveal_strlit("trace");
    reveal_strlit("1");
    reveal_strlit("0");
    reveal_strlit("uname");
    reveal_strlit("manual");
    reveal_strlit("uboot");
    reveal_strlit("grub");
    reveal_strlit("efi");
    reveal_strlit("msw-efi");
    reveal_strlit("raspi");
    reveal_strlit("raspi64");
    reveal_strlit("msw-bootmgr");
    assert("reboot"@.len() == 6);
    assert("rescue-shell"@.len() == 12);
    assert("poweroff"@.len() == 8);
    assert("error"@.len() == 5);
    assert("warn"@.len() == 4);
    assert("info"@.len() == 4);
    assert("debug"@.len() == 5);
    assert("trace"@.len() == 5);
    assert("1"@.len() == 1);
    assert("0"@.len() == 1);
    assert("uname"@.len() == 5);
    assert("manual"@.len() == 6);
    assert("uboot"@.len() == 5);
    assert("grub"@.len() == 4);
    assert("efi"@.len() == 3);
    assert("msw-efi"@.len() == 7);
    assert("raspi"@.len() == 5);
    assert("raspi64"@.len() == 7);
    assert("msw-bootmgr"@.len() == 11);
    assert("error"@[0] != "debug"@[0]);
    assert("error"@[0] != "trace"@[0]);
    assert("warn"@[0] != "info"@[0]);
    assert("debug"@[0] != "trace"@[0]);
    assert("1"@[0] != "0"@[0]);
    assert("uboot"@[0] != "raspi"@[0]);
    assert("msw-efi"@[0] != "raspi64"@[0]);
}

/// The five pieces of a boot type stand for that boot type.
proof fn lemma_boot_type_pieces(bt: BootTypeView)
    ensures
        boot_type_pieces(bt).len() == 5,
        pieces_boot_type(
            boot_type_pieces(bt)[0],
            boot_type_pieces(bt)[1],
            boot_type_pieces(bt)[2],
            boot_type_pieces(bt)[3],
            boot_type_pieces(bt)[4],
        ) == Some(bt),
{
    lemma_words_differ();
    match bt {
        BootTypeView::UBoot { mmc_index, uenv_strategy, bootmgr_subpath } => {
            lemma_decimal(mmc_index as nat);
        },
        _ => {},
    }
}

/// Where the pieces of a list of texts stand at `pos`, behind their
/// number, the list is read back.
proof fn lemma_strs_at(t: Seq<Seq<char>>, pos: int, l: Seq<Seq<char>>)
    requires
        0 <= pos,
        pos + 1 + l.len() <= t.len(),
        l.len() <= u64::MAX,
        t[pos] == decimal(l.len()),
        forall|i: int| 0 <= i < l.len() ==> #[trigger] t[pos + 1 + i] == l[i],
    ensures
        strs_at(t, pos) == Some((l, pos + 1 + l.len())),
{
    lemma_decimal(l.len());
    assert forall|i: int| 0 <= i < l.len() implies t.subrange(pos + 1, pos + 1 + l.len())[i]
        == l[i] by {
        assert(t[pos + 1 + i] == l[i]);
    }
    assert(t.subrange(pos + 1, pos + 1 + l.len()) =~= l);
}

/// Where the pieces of a list of wireless networks stand at `pos`, behind
/// their number, the list is read back.
proof fn lemma_wifis_at(t: Seq<Seq<char>>, pos: int, ws: Seq<WifiConfigView>)
    requires
        0 <= pos,
        pos + 1 + 3 * ws.len() <= t.len(),
        ws.len() <= u64::MAX,
        t[pos] == decimal(ws.len()),
        forall|j: int| 0 <= j < 3 * ws.len() ==> #[trigger] t[pos + 1 + j] == wifi_pieces(ws)[j],
    ensures
        wifis_at(t, pos) == Some((ws, pos + 1 + 3 * ws.len())),
{
    lemma_decimal(ws.len());
    lemma_words_differ();
    let n = ws.len() as int;
    assert forall|i: int| 0 <= i < n implies (#[trigger] wifi_at(t, pos + 1 + 3 * i)) == Some(
        ws[i],
    ) by {
        assert(t[pos + 1 + (3 * i)] == wifi_pieces(ws)[3 * i]);
        assert(t[pos + 1 + (3 * i + 1)] == wifi_pieces(ws)[3 * i + 1]);
        assert(t[pos + 1 + (3 * i + 2)] == wifi_pieces(ws)[3 * i + 2]);
        assert((3 * i) % 3 == 0 && (3 * i) / 3 == i);
        assert((3 * i + 1) % 3 == 1 && (3 * i + 1) / 3 == i);
        assert((3 * i + 2) % 3 == 2 && (3 * i + 2) / 3 == i);
    }
    assert(Seq::new(n as nat, |i: int| wifi_at(t, pos + 1 + 3 * i)->0) =~= ws);
}

/// Where the pieces of a list of pairs stand at `pos`, behind their
/// number, the list is read back.
proof fn lemma_pairs_at(t: Seq<Seq<char>>, pos: int, ps: Seq<(Seq<char>, Seq<char>)>)
    requires
        0 <= pos,
        pos + 1 + 2 * ps.len() <= t.len(),
        ps.len() <= u64::MAX,
        t[pos] == decimal(ps.len()),
        forall|j: int| 0 <= j < 2 * ps.len() ==> #[trigger] t[pos + 1 + j] == pair_pieces(ps)[j],
    ensures
        pairs_at(t, pos) == Some((ps, pos + 1 + 2 * ps.len())),
{
    lemma_decimal(ps.len());
    let n = ps.len() as int;
    assert forall|i: int| 0 <= i < n implies (t[pos + 1 + 2 * i], t[pos + 2 + 2 * i])
        == #[trigger] ps[i] by {
        assert(t[pos + 1 + (2 * i)] == pair_pieces(ps)[2 * i]);
        assert(t[pos + 1 + (2 * i + 1)] == pair_pieces(ps)[2 * i + 1]);
        assert((2 * i) % 2 == 0 && (2 * i) / 2 == i);
        assert((2 * i + 1) % 2 == 1 && (2 * i + 1) / 2 == i);
    }
    assert(Seq::new(n as nat, |i: int| (t[pos + 1 + 2 * i], t[pos + 2 + 2 * i])) =~= ps);
}

/// Where the pieces of a list of mounts stand at `pos`, behind their
/// number, the list is read back.
proof fn lemma_mounts_at(t: Seq<Seq<char>>, pos: int, ms: Seq<MountSpecView>)
    requires
        0 <= pos,
        pos + 1 + 3 * ms.len() <= t.len(),
        ms.len() <= u64::MAX,
        t[pos] == decimal(ms.len()),
        forall|j: int| 0 <= j < 3 * ms.len() ==> #[trigger] t[pos + 1 + j] == mount_pieces(ms)[j],
    ensures
        mounts_at(t, pos) == Some((ms, pos + 1 + 3 * ms.len())),
{
    lemma_decimal(ms.len());
    let n = ms.len() as int;
    assert forall|i: int| 0 <= i < n implies (MountSpecView {
        device: t[pos + 1 + 3 * i],
        fstype: t[pos + 2 + 3 * i],
        mountpoint: t[pos + 3 + 3 * i],
    }) == #[trigger] ms[i] by {
        assert(t[pos + 1 + (3 * i)] == mount_pieces(ms)[3 * i]);
        assert(t[pos + 1 + (3 * i + 1)] == mount_pieces(ms)[3 * i + 1]);
        assert(t[pos + 1 + (3 * i + 2)] == mount_pieces(ms)[3 * i + 2]);
        assert((3 * i) % 3 == 0 && (3 * i) / 3 == i);
        assert((3 * i + 1) % 3 == 1 && (3 * i + 1) / 3 == i);
        assert((3 * i + 2) % 3 == 2 && (3 * i + 2) / 3 == i);
    }
    assert(Seq::new(
        n as nat,
        |i: int|
            MountSpecView {
                device: t[pos + 1 + 3 * i],
                fstype: t[pos + 2 + 3 * i],
                mountpoint: t[pos + 3 + 3 * i],
            },
    ) =~= ms);
}

/// Where the number of wireless networks stands among the pieces.
spec fn wifis_pos(c: Stage2ConfigView) -> int {
    21 + c.nwmgr_files.len() as int
}

/// Where the number of backups stands among the pieces.
spec fn backups_pos(c: Stage2ConfigView) -> int {
    wifis_pos(c) + 1 + 3 * c.wifis.len() as int
}

/// Where the number of mounts stands among the pieces.
spec fn mounts_pos(c: Stage2ConfigView) -> int {
    backups_pos(c) + 1 + 2 * c.boot_backups.len() as int
}

/// Where each piece of a hand-over record stands among its pieces.
proof fn lemma_layout(c: Stage2ConfigView)
    ensures
        fixed_pieces(c).len() == 20,
        encode(c).len() == mounts_pos(c) + 1 + 3 * c.mounts.len(),
        forall|i: int| 0 <= i < 20 ==> #[trigger] encode(c)[i] == fixed_pieces(c)[i],
        encode(c)[20] == decimal(c.nwmgr_files.len()),
        forall|i: int|
            0 <= i < c.nwmgr_files.len() ==> #[trigger] encode(c)[20 + 1 + i] == c.nwmgr_files[i],
        encode(c)[wifis_pos(c)] == decimal(c.wifis.len()),
        forall|j: int|
            0 <= j < 3 * c.wifis.len() ==> #[trigger] encode(c)[wifis_pos(c) + 1 + j]
                == wifi_pieces(c.wifis)[j],
        encode(c)[backups_pos(c)] == decimal(c.boot_backups.len()),
        forall|j: int|
            0 <= j < 2 * c.boot_backups.len() ==> #[trigger] encode(c)[backups_pos(c) + 1 + j]
                == pair_pieces(c.boot_backups)[j],
        encode(c)[mounts_pos(c)] == decimal(c.mounts.len()),
        forall|j: int|
            0 <= j < 3 * c.mounts.len() ==> #[trigger] encode(c)[mounts_pos(c) + 1 + j]
                == mount_pieces(c.mounts)[j],
{
    lemma_boot_type_pieces(c.boot_type);
}

/// The fixed pieces of a hand-over record, one by one.
proof fn lemma_fixed(c: Stage2ConfigView)
    ensures
        fixed_pieces(c).len() == 20,
        fixed_pieces(c)[0] == SCHEMA_TAG@,
        fixed_pieces(c)[1] == decimal(SCHEMA_VERSION as nat),
        fixed_pieces(c)[2] == c.flash_device,
        fixed_pieces(c)[3] == decimal(c.drive_size),
        fixed_pieces(c)[4] == c.image_path,
        fixed_pieces(c)[5] == c.config_path,
        fixed_pieces(c)[6] == fail_word(c.fail_mode),
        fixed_pieces(c)[7] == flag_of(c.log_device),
        fixed_pieces(c)[8] == text_of(c.log_device),
        fixed_pieces(c)[9] == level_word(c.log_level),
        fixed_pieces(c)[10] == c.boot_device,
        fixed_pieces(c)[11] == c.boot_fstype,
        fixed_pieces(c)[12] == flag_of(c.boot_uuid),
        fixed_pieces(c)[13] == text_of(c.boot_uuid),
        fixed_pieces(c)[14] == c.kernel_cmdline,
        fixed_pieces(c)[15] == boot_type_pieces(c.boot_type)[0],
        fixed_pieces(c)[16] == boot_type_pieces(c.boot_type)[1],
        fixed_pieces(c)[17] == boot_type_pieces(c.boot_type)[2],
        fixed_pieces(c)[18] == boot_type_pieces(c.boot_type)[3],
        fixed_pieces(c)[19] == boot_type_pieces(c.boot_type)[4],
{
    lemma_boot_type_pieces(c.boot_type);
}

/// The lists of a hand-over record are read back from its pieces.
proof fn lemma_lists(c: Stage2ConfigView)
    requires
        c.well_formed(),
    ensures
        lists_at(encode(c)) == Some((c.nwmgr_files, c.wifis, c.boot_backups, c.mounts)),
{
    let t = encode(c);
    lemma_layout(c);
    lemma_strs_at(t, 20, c.nwmgr_files);
    lemma_wifis_at(t, wifis_pos(c), c.wifis);
    lemma_pairs_at(t, backups_pos(c), c.boot_backups);
    lemma_mounts_at(t, mounts_pos(c), c.mounts);
}

/// The pieces of a hand-over record stand for that record.
pub proof fn lemma_decode_encode(c: Stage2ConfigView)
    requires
        c.well_formed(),
    ensures
        decode(encode(c)) == Ok::<Stage2ConfigView, MigErrorKind>(c),
{
    let t = encode(c);
    lemma_layout(c);
    lemma_fixed(c);
    lemma_lists(c);
    lemma_words_differ();
    lemma_boot_type_pieces(c.boot_type);
    lemma_decimal(SCHEMA_VERSION as nat);
    lemma_decimal(c.drive_size);
    assert(t[0] == fixed_pieces(c)[0]);
    assert(t[1] == fixed_pieces(c)[1]);
    assert(t[2] == fixed_pieces(c)[2]);
    assert(t[3] == fixed_pieces(c)[3]);
    assert(t[4] == fixed_pieces(c)[4]);
    assert(t[5] == fixed_pieces(c)[5]);
    assert(t[6] == fixed_pieces(c)[6]);
    assert(t[7] == fixed_pieces(c)[7]);
    assert(t[8] == fixed_pieces(c)[8]);
    assert(t[9] == fixed_pieces(c)[9]);
    assert(t[10] == fixed_pieces(c)[10]);
    assert(t[11] == fixed_pieces(c)[11]);
    assert(t[12] == fixed_pieces(c)[12]);
    assert(t[13] == fixed_pieces(c)[13]);
    assert(t[14] == fixed_pieces(c)[14]);
    assert(t[15] == fixed_pieces(c)[15]);
    assert(t[16] == fixed_pieces(c)[16]);
    assert(t[17] == fixed_pieces(c)[17]);
    assert(t[18] == fixed_pieces(c)[18]);
    assert(t[19] == fixed_pieces(c)[19]);
    assert(word_fail(t[6]) == Some(c.fail_mode));
    assert(word_level(t[9]) == Some(c.log_level));
    assert(opt_of(t[7], t[8]) == Some(c.log_device));
    assert(opt_of(t[12], t[13]) == Some(c.boot_uuid));
}

/// Reading the text of a hand-over record gives the record back.
pub proof fn lemma_parse_serialize(c: Stage2ConfigView)
    requires
        c.well_formed(),
    ensures
        parse_spec(serialize_spec(c)) == Ok::<Stage2ConfigView, MigErrorKind>(c),
{
    lemma_unframes(encode(c));
    lemma_decode_encode(c);
}


/// The pieces of some wireless networks and one more.
proof fn lemma_wifi_pieces_push(ws: Seq<WifiConfigView>, w: WifiConfigView)
    ensures
        wifi_pieces(ws.push(w)) == wifi_pieces(ws) + seq![w.ssid, flag_of(w.psk), text_of(w.psk)],
{
    let a = wifi_pieces(ws.push(w));
    let b = wifi_pieces(ws) + seq![w.ssid, flag_of(w.psk), text_of(w.psk)];
    assert(a.len() == b.len());
    assert forall|j: int| 0 <= j < a.len() implies a[j] == b[j] by {
        if j < 3 * ws.len() {
            assert(j / 3 < ws.len());
            assert(ws.push(w)[j / 3] == ws[j / 3]);
        } else {
            assert(j / 3 == ws.len());
            assert(j % 3 == j - 3 * ws.len());
        }
    }
    assert(a =~= b);
}

/// The pieces of some pairs and one more.
pub proof fn lemma_pair_pieces_push(ps: Seq<(Seq<char>, Seq<char>)>, p: (Seq<char>, Seq<char>))
    ensures
        pair_pieces(ps.push(p)) == pair_pieces(ps) + seq![p.0, p.1],
{
    let a = pair_pieces(ps.push(p));
    let b = pair_pieces(ps) + seq![p.0, p.1];
    assert(a.len() == b.len());
    assert forall|j: int| 0 <= j < a.len() implies a[j] == b[j] by {
        if j < 2 * ps.len() {
            assert(j / 2 < ps.len());
            assert(ps.push(p)[j / 2] == ps[j / 2]);
        } else {
            assert(j / 2 == ps.len());
            assert(j % 2 == j - 2 * ps.len());
        }
    }
    assert(a =~= b);
}

/// The pieces of some mounts and one more.
proof fn lemma_mount_pieces_push(ms: Seq<MountSpecView>, m: MountSpecView)
    ensures
        mount_pieces(ms.push(m)) == mount_pieces(ms) + seq![m.device, m.fstype, m.mountpoint],
{
    let a = mount_pieces(ms.push(m));
    let b = mount_pieces(ms) + seq![m.device, m.fstype, m.mountpoint];
    assert(a.len() == b.len());
    assert forall|j: int| 0 <= j < a.len() implies a[j] == b[j] by {
        if j < 3 * ms.len() {
            assert(j / 3 < ms.len());
            assert(ms.push(m)[j / 3] == ms[j / 3]);
        } else {
            assert(j / 3 == ms.len());
            assert(j % 3 == j - 3 * ms.len());
        }
    }
    assert(a =~= b);
}

/// A record whose numbers and pieces fit the machine is well formed.
proof fn lemma_well_formed(c: Stage2ConfigView, pieces: Seq<Seq<char>>)
    requires
        pieces == encode(c),
        forall|i: int| 0 <= i < pieces.len() ==> (#[trigger] pieces[i]).len() <= usize::MAX,
        c.drive_size <= u64::MAX,
        c.nwmgr_files.len() <= usize::MAX,
        c.wifis.len() <= usize::MAX,
        c.boot_backups.len() <= usize::MAX,
        c.mounts.len() <= usize::MAX,
    ensures
        c.well_formed(),
{
    assert forall|i: int| 0 <= i < encode(c).len() implies (#[trigger] encode(c)[i]).len()
        <= u64::MAX by {
        assert(pieces[i].len() <= usize::MAX);
    }
}

/// The decimal numeral of `n`.
pub fn decimal_string(n: u64) -> (r: String)
    ensures
        r@ == decimal(n as nat),
{
    let mut r = String::new();
    push_decimal(&mut r, n);
    assert(Seq::<char>::empty() + decimal(n as nat) =~= decimal(n as nat));
    r
}

/// The flag and the text of an optional text.
fn push_opt(out: &mut Vec<String>, o: &Option<String>)
    ensures
        strings_view(final(out)@) == strings_view(old(out)@) + seq![
            flag_of(opt_view(*o)),
            text_of(opt_view(*o)),
        ],
{
    match o {
        Some(s) => {
            out.push(String::from_str("1"));
            out.push(s.clone());
        },
        None => {
            out.push(String::from_str("0"));
            out.push(String::new());
        },
    }
    assert(strings_view(out@) =~= strings_view(old(out)@) + seq![
        flag_of(opt_view(*o)),
        text_of(opt_view(*o)),
    ]);
}

/// The five pieces of a boot type.
fn push_boot_type(out: &mut Vec<String>, bt: &BootType)
    ensures
        strings_view(final(out)@) == strings_view(old(out)@) + boot_type_pieces(bt@),
{
    match bt {
        BootType::UBoot { mmc_index, uenv_strategy, bootmgr_subpath } => {
            out.push(String::from_str("uboot"));
            out.push(decimal_string(*mmc_index as u64));
            match uenv_strategy {
                UEnvStrategy::UName(u) => {
                    out.push(String::from_str("uname"));
                    out.push(u.clone());
                },
                UEnvStrategy::Manual => {
                    out.push(String::from_str("manual"));
                    out.push(String::new());
                },
            }
            out.push(bootmgr_subpath.clone());
        },
        _ => {
            let word = match bt {
                BootType::Grub => "grub",
                BootType::Efi => "efi",
                BootType::MSWEfi => "msw-efi",
                BootType::Raspi => "raspi",
                BootType::Raspi64 => "raspi64",
                _ => "msw-bootmgr",
            };
            out.push(String::from_str(word));
            out.push(decimal_string(0));
            out.push(String::from_str("manual"));
            out.push(String::new());
            out.push(String::new());
        },
    }
    assert(strings_view(out@) =~= strings_view(old(out)@) + boot_type_pieces(bt@));
}

impl Stage2Config {
    /// The pieces of the record: see `encode`.
    pub fn encode_pieces(&self) -> (r: Vec<String>)
        ensures
            strings_view(r@) == encode(self@),
    {
        let mut out: Vec<String> = Vec::new();
        out.push(String::from_str(SCHEMA_TAG));
        out.push(decimal_string(SCHEMA_VERSION));
        out.push(self.flash_device.clone());
        out.push(decimal_string(self.drive_size));
        out.push(self.image_path.clone());
        out.push(self.config_path.clone());
        out.push(
            String::from_str(
                match self.fail_mode {
                    FailMode::Reboot => "reboot",
                    FailMode::RescueShell => "rescue-shell",
                    FailMode::Poweroff => "poweroff",
                },
            ),
        );
        assert(strings_view(out@) =~= seq![
            SCHEMA_TAG@,
            decimal(SCHEMA_VERSION as nat),
            self@.flash_device,
            decimal(self@.drive_size),
            self@.image_path,
            self@.config_path,
            fail_word(self@.fail_mode),
        ]);
        let ghost s7 = strings_view(out@);
        push_opt(&mut out, &self.log_device);
        let ghost s9 = strings_view(out@);
        out.push(
            String::from_str(
                match self.log_level {
                    LogLevel::Error => "error",
                    LogLevel::Warn => "warn",
                    LogLevel::Info => "info",
                    LogLevel::Debug => "debug",
                    LogLevel::Trace => "trace",
                },
            ),
        );
        out.push(self.boot_device.clone());
        out.push(self.boot_fstype.clone());
        assert(s9 =~= s7 + seq![flag_of(self@.log_device), text_of(self@.log_device)]);
        assert(strings_view(out@) =~= s9 + seq![
            level_word(self@.log_level),
            self@.boot_device,
            self@.boot_fstype,
        ]);
        assert(strings_view(out@) =~= seq![
            SCHEMA_TAG@,
            decimal(SCHEMA_VERSION as nat),
            self@.flash_device,
            decimal(self@.drive_size),
            self@.image_path,
            self@.config_path,
            fail_word(self@.fail_mode),
            flag_of(self@.log_device),
            text_of(self@.log_device),
            level_word(self@.log_level),
            self@.boot_device,
            self@.boot_fstype,
        ]);
        let ghost s12 = strings_view(out@);
        push_opt(&mut out, &self.boot_uuid);
        let ghost s14 = strings_view(out@);
        out.push(self.kernel_cmdline.clone());
        assert(s14 =~= s12 + seq![flag_of(self@.boot_uuid), text_of(self@.boot_uuid)]);
        assert(strings_view(out@) =~= s14.push(self@.kernel_cmdline));
        assert(strings_view(out@) =~= seq![
            SCHEMA_TAG@,
            decimal(SCHEMA_VERSION as nat),
            self@.flash_device,
            decimal(self@.drive_size),
            self@.image_path,
            self@.config_path,
            fail_word(self@.fail_mode),
            flag_of(self@.log_device),
            text_of(self@.log_device),
            level_word(self@.log_level),
            self@.boot_device,
            self@.boot_fstype,
            flag_of(self@.boot_uuid),
            text_of(self@.boot_uuid),
            self@.kernel_cmdline,
        ]);
        push_boot_type(&mut out, &self.boot_type);
        assert(strings_view(out@) == fixed_pieces(self@));
        // the network manager profiles
        out.push(decimal_string(self.nwmgr_files.len() as u64));
        let ghost head1 = fixed_pieces(self@) + seq![decimal(self@.nwmgr_files.len())];
        assert(strings_view(out@) =~= head1 + self@.nwmgr_files.take(0));
        let mut i: usize = 0;
        while i < self.nwmgr_files.len()
            invariant
                i <= self.nwmgr_files.len(),
                strings_view(out@) == head1 + self@.nwmgr_files.take(i as int),
            decreases self.nwmgr_files.len() - i,
        {
            let ghost before = strings_view(out@);
            out.push(self.nwmgr_files[i].clone());
            assert(strings_view(out@) =~= before.push(self@.nwmgr_files[i as int]));
            assert(self@.nwmgr_files.take(i + 1) =~= self@.nwmgr_files.take(i as int).push(
                self@.nwmgr_files[i as int],
            ));
            assert(strings_view(out@) =~= head1 + self@.nwmgr_files.take(i + 1));
            i += 1;
        }
        assert(self@.nwmgr_files.take(self.nwmgr_files.len() as int) =~= self@.nwmgr_files);
        // the wireless networks
        out.push(decimal_string(self.wifis.len() as u64));
        let ghost head2 = head1 + self@.nwmgr_files + seq![decimal(self@.wifis.len())];
        assert(self@.wifis.take(0) =~= Seq::<WifiConfigView>::empty());
        assert(strings_view(out@) =~= head2 + wifi_pieces(self@.wifis.take(0)));
        let mut i: usize = 0;
        while i < self.wifis.len()
            invariant
                i <= self.wifis.len(),
                strings_view(out@) == head2 + wifi_pieces(self@.wifis.take(i as int)),
            decreases self.wifis.len() - i,
        {
            let ghost before = strings_view(out@);
            let w = &self.wifis[i];
            out.push(w.ssid.clone());
            let ghost mid = strings_view(out@);
            push_opt(&mut out, &w.psk);
            proof {
                lemma_wifi_pieces_push(self@.wifis.take(i as int), w@);
                assert(self@.wifis.take(i as int).push(w@) =~= self@.wifis.take(i + 1));
                assert(mid =~= before.push(w@.ssid));
                assert(strings_view(out@) =~= before + seq![
                    w@.ssid,
                    flag_of(w@.psk),
                    text_of(w@.psk),
                ]);
                assert(strings_view(out@) =~= head2 + wifi_pieces(self@.wifis.take(i + 1)));
            }
            i += 1;
        }
        assert(self@.wifis.take(self.wifis.len() as int) =~= self@.wifis);
        // the backups
        out.push(decimal_string(self.boot_backups.len() as u64));
        let ghost head3 = head2 + wifi_pieces(self@.wifis) + seq![
            decimal(self@.boot_backups.len()),
        ];
        assert(self@.boot_backups.take(0) =~= Seq::<(Seq<char>, Seq<char>)>::empty());
        assert(strings_view(out@) =~= head3 + pair_pieces(self@.boot_backups.take(0)));
        let mut i: usize = 0;
        while i < self.boot_backups.len()
            invariant
                i <= self.boot_backups.len(),
                strings_view(out@) == head3 + pair_pieces(self@.boot_backups.take(i as int)),
            decreases self.boot_backups.len() - i,
        {
            let ghost before = strings_view(out@);
            let p = &self.boot_backups[i];
            out.push(p.0.clone());
            out.push(p.1.clone());
            proof {
                let pv = self@.boot_backups[i as int];
                lemma_pair_pieces_push(self@.boot_backups.take(i as int), pv);
                assert(self@.boot_backups.take(i as int).push(pv) =~= self@.boot_backups.take(
                    i + 1,
                ));
                assert(strings_view(out@) =~= before + seq![pv.0, pv.1]);
                assert(strings_view(out@) =~= head3 + pair_pieces(
                    self@.boot_backups.take(i + 1),
                ));
            }
            i += 1;
        }
        assert(self@.boot_backups.take(self.boot_backups.len() as int) =~= self@.boot_backups);
        // the mounts
        out.push(decimal_string(self.mounts.len() as u64));
        let ghost head4 = head3 + pair_pieces(self@.boot_backups) + seq![
            decimal(self@.mounts.len()),
        ];
        assert(self@.mounts.take(0) =~= Seq::<MountSpecView>::empty());
        assert(strings_view(out@) =~= head4 + mount_pieces(self@.mounts.take(0)));
        let mut i: usize = 0;
        while i < self.mounts.len()
            invariant
                i <= self.mounts.len(),
                strings_view(out@) == head4 + mount_pieces(self@.mounts.take(i as int)),
            decreases self.mounts.len() - i,
        {
            let ghost before = strings_view(out@);
            let m = &self.mounts[i];
            out.push(m.device.clone());
            out.push(m.fstype.clone());
            out.push(m.mountpoint.clone());
            proof {
                lemma_mount_pieces_push(self@.mounts.take(i as int), m@);
                assert(self@.mounts.take(i as int).push(m@) =~= self@.mounts.take(i + 1));
                assert(strings_view(out@) =~= before + seq![
                    m@.device,
                    m@.fstype,
                    m@.mountpoint,
                ]);
                assert(strings_view(out@) =~= head4 + mount_pieces(self@.mounts.take(i + 1)));
            }
            i += 1;
        }
        assert(self@.mounts.take(self.mounts.len() as int) =~= self@.mounts);
        out
    }

    /// The text of the record. Reading it gives the record back.
    pub fn serialize(&self) -> (r: String)
        ensures
            r@ == serialize_spec(self@),
            self@.well_formed(),
            parse_spec(r@) == Ok::<Stage2ConfigView, MigErrorKind>(self@),
    {
        let pieces = self.encode_pieces();
        let r = join_frames(&pieces);
        proof {
            let c = self@;
            assert(c.nwmgr_files.len() == self.nwmgr_files.len());
            assert(c.wifis.len() == self.wifis.len());
            assert(c.boot_backups.len() == self.boot_backups.len());
            assert(c.mounts.len() == self.mounts.len());
            lemma_well_formed(c, strings_view(pieces@));
            lemma_parse_serialize(c);
        }
        r
    }
}


/// The number that a piece denotes: see `parse_number`.
fn piece_number(piece: &str) -> (r: Option<u64>)
    ensures
        match r {
            Some(n) => parse_number(piece@) == Some(n as nat),
            None => parse_number(piece@) is None,
        },
{
    let chars = chars_of(piece);
    assert(chars@.subrange(0, chars.len() as int) =~= chars@);
    parse_u64(&chars, 0, chars.len())
}

/// The failure mode that a word stands for.
fn to_fail_mode(t: &str) -> (r: Option<FailMode>)
    ensures
        r == word_fail(t@),
{
    if str_eq(t, "reboot") {
        Some(FailMode::Reboot)
    } else if str_eq(t, "rescue-shell") {
        Some(FailMode::RescueShell)
    } else if str_eq(t, "poweroff") {
        Some(FailMode::Poweroff)
    } else {
        None
    }
}

/// The log level that a word stands for.
fn to_log_level(t: &str) -> (r: Option<LogLevel>)
    ensures
        r == word_level(t@),
{
    if str_eq(t, "error") {
        Some(LogLevel::Error)
    } else if str_eq(t, "warn") {
        Some(LogLevel::Warn)
    } else if str_eq(t, "info") {
        Some(LogLevel::Info)
    } else if str_eq(t, "debug") {
        Some(LogLevel::Debug)
    } else if str_eq(t, "trace") {
        Some(LogLevel::Trace)
    } else {
        None
    }
}

/// The view of an optional optional string.
pub open spec fn opt_opt_view(o: Option<Option<String>>) -> Option<Option<Seq<char>>> {
    match o {
        Some(inner) => Some(opt_view(inner)),
        None => None,
    }
}

/// The optional text that a flag and a text stand for.
fn to_opt(flag: &str, text: &str) -> (r: Option<Option<String>>)
    ensures
        opt_opt_view(r) == opt_of(flag@, text@),
{
    if str_eq(flag, "1") {
        Some(Some(String::from_str(text)))
    } else if str_eq(flag, "0") {
        Some(None)
    } else {
        None
    }
}

/// The view of an optional boot type.
pub open spec fn opt_boot_type_view(o: Option<BootType>) -> Option<BootTypeView> {
    match o {
        Some(bt) => Some(bt@),
        None => None,
    }
}

/// The boot type that five pieces stand for.
fn to_boot_type(word: &str, mmc: &str, strategy: &str, uname: &str, subpath: &str) -> (r: Option<
    BootType,
>)
    ensures
        opt_boot_type_view(r) == pieces_boot_type(word@, mmc@, strategy@, uname@, subpath@),
{
    if str_eq(word, "uboot") {
        let n = match piece_number(mmc) {
            Some(n) => n,
            None => {
                return None;
            },
        };
        if n > 255 {
            return None;
        }
        let strategy = if str_eq(strategy, "uname") {
            UEnvStrategy::UName(String::from_str(uname))
        } else if str_eq(strategy, "manual") {
            UEnvStrategy::Manual
        } else {
            return None;
        };
        Some(
            BootType::UBoot {
                mmc_index: n as u8,
                uenv_strategy: strategy,
                bootmgr_subpath: String::from_str(subpath),
            },
        )
    } else if str_eq(word, "grub") {
        Some(BootType::Grub)
    } else if str_eq(word, "efi") {
        Some(BootType::Efi)
    } else if str_eq(word, "msw-efi") {
        Some(BootType::MSWEfi)
    } else if str_eq(word, "raspi") {
        Some(BootType::Raspi)
    } else if str_eq(word, "raspi64") {
        Some(BootType::Raspi64)
    } else if str_eq(word, "msw-bootmgr") {
        Some(BootType::MSWBootMgr)
    } else {
        None
    }
}

/// The number of items that the piece at `pos` announces: see `count_at`.
fn read_count(t: &Vec<String>, pos: usize, width: usize) -> (r: Option<usize>)
    requires
        1 <= width <= 3,
    ensures
        match r {
            Some(n) => count_at(strings_view(t@), pos as int, width as int) == Some(n as nat)
                && pos + 1 + width * n <= t.len(),
            None => count_at(strings_view(t@), pos as int, width as int) is None,
        },
{
    if pos >= t.len() {
        return None;
    }
    let n = match piece_number(t[pos].as_str()) {
        Some(n) => n,
        None => {
            return None;
        },
    };
    let avail = t.len() - pos - 1;
    let fits = if width == 1 {
        assert(width * n == n) by (nonlinear_arith)
            requires
                width == 1,
        ;
        n <= avail as u64
    } else if width == 2 {
        assert(width * n == 2 * n) by (nonlinear_arith)
            requires
                width == 2,
        ;
        n <= (avail / 2) as u64
    } else {
        assert(width * n == 3 * n) by (nonlinear_arith)
            requires
                width == 3,
        ;
        n <= (avail / 3) as u64
    };
    assert(fits == (width * n <= avail));
    if !fits {
        return None;
    }
    Some(n as usize)
}

impl Stage2Config {
    /// The record that the pieces stand for: see `decode`.
    pub fn decode_pieces(t: &Vec<String>) -> (r: Result<Stage2Config, MigError>)
        ensures
            match r {
                Ok(c) => decode(strings_view(t@)) == Ok::<Stage2ConfigView, MigErrorKind>(c@),
                Err(e) => decode(strings_view(t@)) == Err::<Stage2ConfigView, MigErrorKind>(
                    e.spec_kind(),
                ),
            },
    {
        let ghost tv = strings_view(t@);
        if t.len() < 2 || !str_eq(t[0].as_str(), SCHEMA_TAG) {
            return Err(MigError::from_remark(MigErrorKind::InvParam, "not a stage 2 configuration"));
        }
        match piece_number(t[1].as_str()) {
            None => {
                return Err(
                    MigError::from_remark(MigErrorKind::InvParam, "not a stage 2 configuration"),
                );
            },
            Some(version) => {
                if version != SCHEMA_VERSION {
                    return Err(
                        MigError::from_remark(
                            MigErrorKind::Unsupported,
                            "unknown version of the stage 2 configuration",
                        ),
                    );
                }
            },
        }
        if t.len() < FIXED_PIECES {
            return Err(
                MigError::from_remark(MigErrorKind::InvParam, "incomplete stage 2 configuration"),
            );
        }
        let drive_size = piece_number(t[3].as_str());
        let fail_mode = to_fail_mode(t[6].as_str());
        let log_device = to_opt(t[7].as_str(), t[8].as_str());
        let log_level = to_log_level(t[9].as_str());
        let boot_uuid = to_opt(t[12].as_str(), t[13].as_str());
        let boot_type = to_boot_type(
            t[15].as_str(),
            t[16].as_str(),
            t[17].as_str(),
            t[18].as_str(),
            t[19].as_str(),
        );
        let lists = read_lists(t);
        match (drive_size, fail_mode, log_device, log_level, boot_uuid, boot_type, lists) {
            (
                Some(drive_size),
                Some(fail_mode),
                Some(log_device),
                Some(log_level),
                Some(boot_uuid),
                Some(boot_type),
                Some((nwmgr_files, wifis, boot_backups, mounts)),
            ) => Ok(
                Stage2Config {
                    flash_device: t[2].clone(),
                    drive_size,
                    image_path: t[4].clone(),
                    config_path: t[5].clone(),
                    nwmgr_files,
                    wifis,
                    fail_mode,
                    log_device,
                    log_level,
                    boot_backups,
                    boot_device: t[10].clone(),
                    boot_fstype: t[11].clone(),
                    boot_uuid,
                    kernel_cmdline: t[14].clone(),
                    boot_type,
                    mounts,
                },
            ),
            _ => Err(
                MigError::from_remark(MigErrorKind::InvParam, "malformed stage 2 configuration"),
            ),
        }
    }

    /// The record that a text stands for: see `parse_spec`.
    ///
    /// Fails with `Unsupported` for a record of another schema version,
    /// and with `InvParam` for any other text that is no record.
    pub fn parse(text: &str) -> (r: Result<Stage2Config, MigError>)
        ensures
            match r {
                Ok(c) => parse_spec(text@) == Ok::<Stage2ConfigView, MigErrorKind>(c@),
                Err(e) => parse_spec(text@) == Err::<Stage2ConfigView, MigErrorKind>(
                    e.spec_kind(),
                ),
            },
    {
        match split_frames(text) {
            Some(pieces) => Stage2Config::decode_pieces(&pieces),
            None => Err(
                MigError::from_remark(MigErrorKind::InvParam, "malformed stage 2 configuration"),
            ),
        }
    }
}

/// The view of the four lists.
pub open spec fn lists_view(
    l: (Vec<String>, Vec<WifiConfig>, Vec<(String, String)>, Vec<MountSpec>),
) -> (Seq<Seq<char>>, Seq<WifiConfigView>, Seq<(Seq<char>, Seq<char>)>, Seq<MountSpecView>) {
    (strings_view(l.0@), wifis_view(l.1@), pairs_view(l.2@), mount_specs_view(l.3@))
}

/// The four lists behind the fixed pieces: see `lists_at`.
#[verifier::loop_isolation(false)]
fn read_lists(t: &Vec<String>) -> (r: Option<
    (Vec<String>, Vec<WifiConfig>, Vec<(String, String)>, Vec<MountSpec>),
>)
    ensures
        match r {
            Some(l) => lists_at(strings_view(t@)) == Some(lists_view(l)),
            None => lists_at(strings_view(t@)) is None,
        },
{
    let ghost tv = strings_view(t@);
    // the network manager profiles
    let n1 = match read_count(t, FIXED_PIECES, 1) {
        Some(n) => n,
        None => {
            return None;
        },
    };
    let mut files: Vec<String> = Vec::new();
    let mut i: usize = 0;
    while i < n1
        invariant
            i <= n1,
            FIXED_PIECES + 1 + n1 <= t.len(),
            files.len() == i,
            forall|j: int| 0 <= j < i ==> (#[trigger] files@[j])@ == t@[FIXED_PIECES + 1 + j]@,
        decreases n1 - i,
    {
        files.push(t[FIXED_PIECES + 1 + i].clone());
        i += 1;
    }
    let p1 = FIXED_PIECES + 1 + n1;
    assert(strings_view(files@) =~= tv.subrange(FIXED_PIECES + 1, p1 as int));
    assert(strs_at(tv, FIXED_PIECES as int) == Some((strings_view(files@), p1 as int)));
    // the wireless networks
    let n2 = match read_count(t, p1, 3) {
        Some(n) => n,
        None => {
            return None;
        },
    };
    let mut wifis: Vec<WifiConfig> = Vec::new();
    let mut i: usize = 0;
    while i < n2
        invariant
            i <= n2,
            p1 + 1 + 3 * n2 <= t.len(),
            tv == strings_view(t@),
            wifis.len() == i,
            forall|j: int| 0 <= j < i ==> wifi_at(tv, p1 + 1 + 3 * j) == Some((#[trigger] wifis@[j])@),
        decreases n2 - i,
    {
        let at = p1 + 1 + 3 * i;
        match to_opt(t[at + 1].as_str(), t[at + 2].as_str()) {
            Some(psk) => {
                wifis.push(WifiConfig { ssid: t[at].clone(), psk });
            },
            None => {
                assert(wifi_at(tv, p1 + 1 + 3 * i) is None);
                return None;
            },
        }
        i += 1;
    }
    let p2 = p1 + 1 + 3 * n2;
    assert forall|j: int| 0 <= j < n2 implies (#[trigger] wifi_at(tv, p1 + 1 + 3 * j)) is Some by {
        assert(wifi_at(tv, p1 + 1 + 3 * j) == Some(wifis@[j]@));
    }
    assert(wifis_view(wifis@) =~= Seq::new(n2 as nat, |j: int| wifi_at(tv, p1 + 1 + 3 * j)->0));
    assert(wifis_at(tv, p1 as int) == Some((wifis_view(wifis@), p2 as int)));
    // the backups
    let n3 = match read_count(t, p2, 2) {
        Some(n) => n,
        None => {
            return None;
        },
    };
    let mut backups: Vec<(String, String)> = Vec::new();
    let mut i: usize = 0;
    while i < n3
        invariant
            i <= n3,
            p2 + 1 + 2 * n3 <= t.len(),
            tv == strings_view(t@),
            backups.len() == i,
            forall|j: int|
                0 <= j < i ==> ((#[trigger] backups@[j]).0@, backups@[j].1@) == (
                    tv[p2 + 1 + 2 * j],
                    tv[p2 + 2 + 2 * j],
                ),
        decreases n3 - i,
    {
        let at = p2 + 1 + 2 * i;
        backups.push((t[at].clone(), t[at + 1].clone()));
        i += 1;
    }
    let p3 = p2 + 1 + 2 * n3;
    assert(pairs_view(backups@) =~= Seq::new(
        n3 as nat,
        |j: int| (tv[p2 + 1 + 2 * j], tv[p2 + 2 + 2 * j]),
    ));
    assert(pairs_at(tv, p2 as int) == Some((pairs_view(backups@), p3 as int)));
    // the mounts
    let n4 = match read_count(t, p3, 3) {
        Some(n) => n,
        None => {
            return None;
        },
    };
    let mut mounts: Vec<MountSpec> = Vec::new();
    let mut i: usize = 0;
    while i < n4
        invariant
            i <= n4,
            p3 + 1 + 3 * n4 <= t.len(),
            tv == strings_view(t@),
            mounts.len() == i,
            forall|j: int|
                0 <= j < i ==> (#[trigger] mounts@[j])@ == (MountSpecView {
                    device: tv[p3 + 1 + 3 * j],
                    fstype: tv[p3 + 2 + 3 * j],
                    mountpoint: tv[p3 + 3 + 3 * j],
                }),
        decreases n4 - i,
    {
        let at = p3 + 1 + 3 * i;
        mounts.push(
            MountSpec {
                device: t[at].clone(),
                fstype: t[at + 1].clone(),
                mountpoint: t[at + 2].clone(),
            },
        );
        i += 1;
    }
    let p4 = p3 + 1 + 3 * n4;
    assert(mount_specs_view(mounts@) =~= Seq::new(
        n4 as nat,
        |j: int|
            MountSpecView {
                device: tv[p3 + 1 + 3 * j],
                fstype: tv[p3 + 2 + 3 * j],
                mountpoint: tv[p3 + 3 + 3 * j],
            },
    ));
    assert(mounts_at(tv, p3 as int) == Some((mount_specs_view(mounts@), p4 as int)));
    if p4 != t.len() {
        return None;
    }
    Some((files, wifis, backups, mounts))
}

} // verus!
