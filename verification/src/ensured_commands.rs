//! The external commands that a migration relies on, each with the place
//! where it was found on the host.

use vstd::prelude::*;
use vstd::string::*;

use crate::devices::opt_view;
use crate::error::{MigError, MigErrorKind};
use crate::text::concat2;

verus! {

pub const DF_CMD: &'static str = "df";

pub const LSBLK_CMD: &'static str = "lsblk";

pub const FDISK_CMD: &'static str = "fdisk";

pub const FILE_CMD: &'static str = "file";

pub const UNAME_CMD: &'static str = "uname";

pub const MOUNT_CMD: &'static str = "mount";

pub const MOKUTIL_CMD: &'static str = "mokutil";

pub const GRUB_UPDT_CMD: &'static str = "update-grub";

pub const GRUB_REBOOT_CMD: &'static str = "grub-reboot";

pub const REBOOT_CMD: &'static str = "reboot";

pub const CHMOD_CMD: &'static str = "chmod";

pub const DD_CMD: &'static str = "dd";

pub const PARTPROBE_CMD: &'static str = "partprobe";

pub const GZIP_CMD: &'static str = "gzip";

pub const MKTEMP_CMD: &'static str = "mktemp";

/// The start of the remark of a `ToolMissing` error; the name of the
/// command follows.
pub const MISSING_CMD_REMARK: &'static str = "cannot find required command ";

/// The start of the remark of the error for a command that was never
/// ensured; the name of the command follows.
pub const UNCHECKED_CMD_REMARK: &'static str = "The command is not a checked command: ";

/// The views of a sequence of string slices.
pub open spec fn strs_view(v: Seq<&str>) -> Seq<Seq<char>> {
    Seq::new(v.len(), |i: int| v[i]@)
}

/// The views of a sequence of optional strings.
pub open spec fn found_view(v: Seq<Option<String>>) -> Seq<Option<Seq<char>>> {
    Seq::new(v.len(), |i: int| opt_view(v[i]))
}

/// The first position at or after `from` at which nothing was found.
pub open spec fn first_missing(found: Seq<Option<Seq<char>>>, from: int) -> Option<int>
    decreases found.len() - from,
{
    if from < 0 || from >= found.len() {
        None
    } else if found[from] is None {
        Some(from)
    } else {
        first_missing(found, from + 1)
    }
}

/// The table `table` after the commands at the positions from `from` up
/// to `to` were entered in order, each with the place where it was found.
pub open spec fn entered(
    table: Map<Seq<char>, Seq<char>>,
    cmds: Seq<Seq<char>>,
    found: Seq<Option<Seq<char>>>,
    from: int,
    to: int,
) -> Map<Seq<char>, Seq<char>>
    decreases to - from,
{
    if from >= to {
        table
    } else {
        entered(table, cmds, found, from, to - 1).insert(cmds[to - 1], found[to - 1]->0)
    }
}

/// A command to run: the program, its arguments, and whether the output
/// is to be trimmed.
#[derive(Debug, PartialEq, Eq)]
pub struct CmdCall {
    pub program: String,
    pub args: Vec<String>,
    pub trim_stdout: bool,
}

/// Whether entry `i` of the table is the one of command `k`.
pub closed spec fn holds(t: Seq<(String, String)>, i: int, k: Seq<char>) -> bool {
    0 <= i < t.len() && t[i].0@ == k
}

/// Whether no command has two entries in the table.
pub closed spec fn unique(t: Seq<(String, String)>) -> bool {
    forall|i: int, j: int| 0 <= i < j < t.len() ==> t[i].0@ != t[j].0@
}

/// The place of each command that has an entry in the table.
pub closed spec fn table_map(t: Seq<(String, String)>) -> Map<Seq<char>, Seq<char>> {
    Map::new(
        |k: Seq<char>| exists|i: int| holds(t, i, k),
        |k: Seq<char>| t[choose|i: int| holds(t, i, k)].1@,
    )
}

/// The position of the entry of `cmd`.
fn position(t: &Vec<(String, String)>, cmd: &String) -> (r: Option<usize>)
    ensures
        match r {
            Some(i) => holds(t@, i as int, cmd@),
            None => forall|i: int| !holds(t@, i, cmd@),
        },
{
    let mut i: usize = 0;
    while i < t.len()
        invariant
            i <= t.len(),
            forall|j: int| 0 <= j < i ==> !holds(t@, j, cmd@),
        decreases t.len() - i,
    {
        if t[i].0 == *cmd {
            return Some(i);
        }
        i += 1;
    }
    None
}

/// Enters `cmd` with its place `path`, in place of an earlier entry of
/// `cmd` where there is one.
fn enter(t: &mut Vec<(String, String)>, cmd: String, path: String)
    requires
        unique(old(t)@),
    ensures
        unique(final(t)@),
        table_map(final(t)@) == table_map(old(t)@).insert(cmd@, path@),
{
    let ghost before = t@;
    let pos = position(t, &cmd);
    let ghost key = cmd@;
    let ghost val = path@;
    match pos {
        Some(i) => {
            t.set(i, (cmd, path));
            proof {
                let after = t@;
                assert forall|j: int| 0 <= j < after.len() implies (#[trigger] after[j]).0@
                    == before[j].0@ by {}
                assert forall|k: Seq<char>, j: int| #[trigger]
                    holds(after, j, k) == holds(before, j, k) by {}
                assert(unique(after)) by {
                    assert forall|a: int, b: int| 0 <= a < b < after.len() implies after[a].0@
                        != after[b].0@ by {
                        assert(before[a].0@ != before[b].0@);
                    }
                }
                assert forall|k: Seq<char>| #[trigger]
                    table_map(after).contains_key(k) == table_map(before).insert(
                        key,
                        val,
                    ).contains_key(k) by {
                    if table_map(after).contains_key(k) {
                        let a = choose|a: int| holds(after, a, k);
                        assert(holds(before, a, k));
                    }
                    if table_map(before).contains_key(k) {
                        let b = choose|b: int| holds(before, b, k);
                        assert(holds(after, b, k));
                    }
                    if k == key {
                        assert(holds(after, i as int, k));
                    }
                }
                assert forall|k: Seq<char>| #[trigger]
                    table_map(after).contains_key(k) implies table_map(after)[k] == table_map(
                    before,
                ).insert(key, val)[k] by {
                    let a = choose|a: int| holds(after, a, k);
                    assert(holds(after, a, k));
                    assert(holds(before, a, k));
                    if k == key {
                        if a < i {
                            assert(before[a].0@ != before[i as int].0@);
                        } else if i < a {
                            assert(before[i as int].0@ != before[a].0@);
                        }
                    } else {
                        let b = choose|b: int| holds(before, b, k);
                        assert(holds(before, b, k));
                        if a < b {
                            assert(before[a].0@ != before[b].0@);
                        } else if b < a {
                            assert(before[b].0@ != before[a].0@);
                        }
                    }
                }
                assert(table_map(after) =~= table_map(before).insert(key, val));
            }
        },
        None => {
            t.push((cmd, path));
            proof {
                let after = t@;
                let n = before.len() as int;
                assert forall|j: int| 0 <= j < n implies (#[trigger] after[j]) == before[j] by {}
                assert(after[n].0@ == key);
                assert forall|k: Seq<char>, j: int| #[trigger]
                    holds(after, j, k) == (holds(before, j, k) || (j == n && k == key)) by {}
                assert(unique(after)) by {
                    assert forall|a: int, b: int| 0 <= a < b < after.len() implies after[a].0@
                        != after[b].0@ by {
                        if b < n {
                            assert(before[a].0@ != before[b].0@);
                        } else {
                            assert(!holds(before, a, key));
                        }
                    }
                }
                assert forall|k: Seq<char>| #[trigger]
                    table_map(after).contains_key(k) == table_map(before).insert(
                        key,
                        val,
                    ).contains_key(k) by {
                    if table_map(after).contains_key(k) {
                        let a = choose|a: int| holds(after, a, k);
                        assert(holds(before, a, k) || k == key);
                    }
                    if table_map(before).contains_key(k) {
                        let b = choose|b: int| holds(before, b, k);
                        assert(holds(after, b, k));
                    }
                    if k == key {
                        assert(holds(after, n, k));
                    }
                }
                assert forall|k: Seq<char>| #[trigger]
                    table_map(after).contains_key(k) implies table_map(after)[k] == table_map(
                    before,
                ).insert(key, val)[k] by {
                    let a = choose|a: int| holds(after, a, k);
                    assert(holds(after, a, k));
                    if k == key {
                        assert(!holds(before, a, k));
                        assert(a == n);
                    } else {
                        let b = choose|b: int| holds(before, b, k);
                        assert(holds(before, a, k));
                        assert(holds(before, b, k));
                        if a < b {
                            assert(before[a].0@ != before[b].0@);
                        } else if b < a {
                            assert(before[b].0@ != before[a].0@);
                        }
                    }
                }
                assert(table_map(after) =~= table_map(before).insert(key, val));
            }
        },
    }
}

/// A copy of the table.
fn clone_table(t: &Vec<(String, String)>) -> (r: Vec<(String, String)>)
    ensures
        r@ == t@,
{
    let mut out: Vec<(String, String)> = Vec::new();
    let mut i: usize = 0;
    while i < t.len()
        invariant
            i <= t.len(),
            out.len() == i,
            forall|j: int| 0 <= j < i ==> (#[trigger] out@[j]) == t@[j],
        decreases t.len() - i,
    {
        out.push((t[i].0.clone(), t[i].1.clone()));
        i += 1;
    }
    assert(out@ =~= t@);
    out
}

/// Enters the commands `cmds` into the table, in order, up to the first
/// that was not found, and gives the position of that one.
fn enter_all(t: &mut Vec<(String, String)>, cmds: &[&str], found: &[Option<String>]) -> (r: Option<
    usize,
>)
    requires
        unique(old(t)@),
        cmds.len() == found.len(),
    ensures
        unique(final(t)@),
        match r {
            Some(k) => first_missing(found_view(found@), 0) == Some(k as int) && k < cmds.len()
                && table_map(final(t)@) == entered(
                table_map(old(t)@),
                strs_view(cmds@),
                found_view(found@),
                0,
                k as int,
            ),
            None => first_missing(found_view(found@), 0) is None && table_map(final(t)@)
                == entered(
                table_map(old(t)@),
                strs_view(cmds@),
                found_view(found@),
                0,
                cmds.len() as int,
            ),
        },
{
    let mut i: usize = 0;
    while i < cmds.len()
        invariant
            i <= cmds.len(),
            cmds.len() == found.len(),
            first_missing(found_view(found@), 0) == first_missing(found_view(found@), i as int),
            unique(t@),
            table_map(t@) == entered(
                table_map(old(t)@),
                strs_view(cmds@),
                found_view(found@),
                0,
                i as int,
            ),
        decreases cmds.len() - i,
    {
        match &found[i] {
            Some(cmd_path) => {
                enter(t, String::from_str(cmds[i]), cmd_path.clone());
            },
            None => {
                return Some(i);
            },
        }
        i += 1;
    }
    None
}

/// The commands that were ensured, each with its place on the host.
#[derive(Debug)]
pub struct EnsuredCommands {
    cmd_table: Vec<(String, String)>,
}

impl View for EnsuredCommands {
    type V = Map<Seq<char>, Seq<char>>;

    closed spec fn view(&self) -> Map<Seq<char>, Seq<char>> {
        table_map(self.cmd_table@)
    }
}

impl EnsuredCommands {
    /// The invariant of the table: no command has two entries.
    #[verifier::type_invariant]
    closed spec fn inv(&self) -> bool {
        unique(self.cmd_table@)
    }

    /// The table of the commands `cmds`, where `found` gives for each of
    /// them, in the same order, the place where the host has it, if it
    /// has.
    ///
    /// Fails with `ToolMissing`, and a remark that ends in the name of the
    /// command, for the first command that was not found; with `InvParam`
    /// where `found` is not as long as `cmds`.
    pub fn new(cmds: &[&str], found: &[Option<String>]) -> (r: Result<EnsuredCommands, MigError>)
        ensures
            cmds.len() != found.len() ==> r is Err && r->Err_0.spec_kind()
                == MigErrorKind::InvParam,
            cmds.len() == found.len() ==> match first_missing(found_view(found@), 0) {
                Some(k) => r is Err && r->Err_0.spec_kind() == MigErrorKind::ToolMissing
                    && r->Err_0.spec_remark() == MISSING_CMD_REMARK@ + cmds@[k]@,
                None => r is Ok && r->Ok_0@ == entered(
                    Map::empty(),
                    strs_view(cmds@),
                    found_view(found@),
                    0,
                    cmds.len() as int,
                ),
            },
    {
        if cmds.len() != found.len() {
            return Err(
                MigError::from_remark(
                    MigErrorKind::InvParam,
                    "one search result per command is needed",
                ),
            );
        }
        let mut table: Vec<(String, String)> = Vec::new();
        assert(table_map(table@) =~= Map::<Seq<char>, Seq<char>>::empty());
        match enter_all(&mut table, cmds, found) {
            Some(k) => {
                let message = concat2(MISSING_CMD_REMARK, cmds[k]);
                Err(MigError::from_remark(MigErrorKind::ToolMissing, message.as_str()))
            },
            None => Ok(EnsuredCommands { cmd_table: table }),
        }
    }

    /// Enters the commands `cmds`, where `found` gives for each of them,
    /// in the same order, the place where the host has it, if it has.
    ///
    /// Fails with `ToolMissing`, and a remark that ends in the name of the
    /// command, for the first command that was not found; those before it
    /// are entered. Fails with `InvParam`, and enters nothing, where
    /// `found` is not as long as `cmds`.
    pub fn ensure_cmds(&mut self, cmds: &[&str], found: &[Option<String>]) -> (r: Result<
        (),
        MigError,
    >)
        ensures
            cmds.len() != found.len() ==> r is Err && r->Err_0.spec_kind()
                == MigErrorKind::InvParam && final(self)@ == old(self)@,
            cmds.len() == found.len() ==> match first_missing(found_view(found@), 0) {
                Some(k) => r is Err && r->Err_0.spec_kind() == MigErrorKind::ToolMissing
                    && r->Err_0.spec_remark() == MISSING_CMD_REMARK@ + cmds@[k]@ && final(self)@
                    == entered(old(self)@, strs_view(cmds@), found_view(found@), 0, k),
                None => r is Ok && final(self)@ == entered(
                    old(self)@,
                    strs_view(cmds@),
                    found_view(found@),
                    0,
                    cmds.len() as int,
                ),
            },
    {
        proof {
            use_type_invariant(&*self);
        }
        if cmds.len() != found.len() {
            return Err(
                MigError::from_remark(
                    MigErrorKind::InvParam,
                    "one search result per command is needed",
                ),
            );
        }
        let mut table = clone_table(&self.cmd_table);
        let missing = enter_all(&mut table, cmds, found);
        self.cmd_table = table;
        match missing {
            Some(k) => {
                let message = concat2(MISSING_CMD_REMARK, cmds[k]);
                Err(MigError::from_remark(MigErrorKind::ToolMissing, message.as_str()))
            },
            None => Ok(()),
        }
    }

    /// Enters `cmd` with the place `found` where the host has it, and
    /// returns that place.
    ///
    /// Fails with `ToolMissing`, and a remark that ends in the name of the
    /// command, where the host has it not; the table is then unchanged.
    pub fn ensure_cmd(&mut self, cmd: &str, found: Option<String>) -> (r: Result<String, MigError>)
        ensures
            match found {
                Some(p) => r is Ok && r->Ok_0@ == p@ && final(self)@ == old(self)@.insert(
                    cmd@,
                    p@,
                ),
                None => r is Err && r->Err_0.spec_kind() == MigErrorKind::ToolMissing
                    && r->Err_0.spec_remark() == MISSING_CMD_REMARK@ + cmd@ && final(self)@ == old(
                    self,
                )@,
            },
    {
        proof {
            use_type_invariant(&*self);
        }
        match found {
            Some(cmd_path) => {
                let mut table = clone_table(&self.cmd_table);
                enter(&mut table, String::from_str(cmd), cmd_path.clone());
                self.cmd_table = table;
                Ok(cmd_path)
            },
            None => {
                let message = concat2(MISSING_CMD_REMARK, cmd);
                Err(MigError::from_remark(MigErrorKind::ToolMissing, message.as_str()))
            },
        }
    }

    /// The place of the ensured command `cmd`.
    ///
    /// Fails with `InvParam`, and a remark that ends in the name of the
    /// command, where `cmd` was not ensured.
    pub fn get_cmd<'a>(&'a self, cmd: &str) -> (r: Result<&'a str, MigError>)
        ensures
            match r {
                Ok(p) => self@.contains_key(cmd@) && p@ == self@[cmd@],
                Err(e) => !self@.contains_key(cmd@) && e.spec_kind() == MigErrorKind::InvParam
                    && e.spec_remark() == UNCHECKED_CMD_REMARK@ + cmd@,
            },
    {
        proof {
            use_type_invariant(self);
        }
        let key = String::from_str(cmd);
        match position(&self.cmd_table, &key) {
            Some(i) => {
                proof {
                    let t = self.cmd_table@;
                    let a = choose|a: int| holds(t, a, cmd@);
                    assert(holds(t, a, cmd@));
                    if a < i {
                        assert(t[a].0@ != t[i as int].0@);
                    } else if i < a {
                        assert(t[i as int].0@ != t[a].0@);
                    }
                }
                Ok(self.cmd_table[i].1.as_str())
            },
            None => {
                let message = concat2(UNCHECKED_CMD_REMARK, cmd);
                Err(MigError::from_remark(MigErrorKind::InvParam, message.as_str()))
            },
        }
    }

    /// The call of the ensured command `cmd` with the arguments `args`:
    /// its place on the host as the program, the arguments in order, and
    /// `trim_stdout` as given. The caller runs it.
    ///
    /// Fails as `get_cmd` does where `cmd` was not ensured.
    pub fn call_cmd(&self, cmd: &str, args: &[&str], trim_stdout: bool) -> (r: Result<
        CmdCall,
        MigError,
    >)
        ensures
            match r {
                Ok(c) => self@.contains_key(cmd@) && c.program@ == self@[cmd@] && c.trim_stdout
                    == trim_stdout && c.args@.len() == args@.len() && forall|i: int|
                    0 <= i < args@.len() ==> (#[trigger] c.args@[i])@ == args@[i]@,
                Err(e) => !self@.contains_key(cmd@) && e.spec_kind() == MigErrorKind::InvParam
                    && e.spec_remark() == UNCHECKED_CMD_REMARK@ + cmd@,
            },
    {
        let program = match self.get_cmd(cmd) {
            Ok(p) => String::from_str(p),
            Err(e) => {
                return Err(e);
            },
        };
        let mut owned: Vec<String> = Vec::new();
        let mut i: usize = 0;
        while i < args.len()
            invariant
                i <= args.len(),
                owned.len() == i,
                forall|j: int| 0 <= j < i ==> (#[trigger] owned@[j])@ == args@[j]@,
            decreases args.len() - i,
        {
            owned.push(String::from_str(args[i]));
            i += 1;
        }
        Ok(CmdCall { program, args: owned, trim_stdout })
    }
}

} // verus!
