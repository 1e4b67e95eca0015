//! What a change of the boot configuration, and taking it back, do to the
//! files of a host. The files are seen as a map from paths to contents.
//! The law of this module: whatever part of a plan was carried out, and
//! whatever a step that failed has left of the file it was at, taking the
//! plan back as `rollback_spec` says leaves every changed file as it was.

use vstd::prelude::*;

use crate::boot_manager::{
    changes_spec, command_steps, file_steps, join_path, rollback_spec, setup_plan, steps_for,
    undo_of, FileChangeView, SetupStepView, UndoStepView, BACKUP_SUFFIX, RASPI_CMDLINE_FILE,
    RASPI_CONFIG_FILE,
};
use crate::defs::BootTypeView;

verus! {

/// The files of a host: the content of each file that exists.
pub type Files = Map<Seq<char>, Seq<char>>;

/// Whether two sets of files are alike at a path: the file is in both or
/// in neither, with the same content.
pub open spec fn alike(a: Files, b: Files, path: Seq<char>) -> bool {
    a.contains_key(path) == b.contains_key(path) && (a.contains_key(path) ==> a[path] == b[path])
}

/// The file that a step writes, if it writes one.
pub open spec fn target(step: SetupStepView) -> Option<Seq<char>> {
    match step {
        SetupStepView::Backup { path, to } => Some(to),
        SetupStepView::Write { path, text, backup } => Some(path),
        SetupStepView::Append { path, text, backup } => Some(path),
        SetupStepView::Run { call } => None,
    }
}

/// The files after a step was made. A command leaves the files alone.
pub open spec fn after_step(files: Files, step: SetupStepView) -> Files {
    match step {
        SetupStepView::Backup { path, to } => if files.contains_key(path) {
            files.insert(to, files[path])
        } else {
            files
        },
        SetupStepView::Write { path, text, backup } => files.insert(path, text),
        SetupStepView::Append { path, text, backup } => if files.contains_key(path) {
            files.insert(path, files[path] + text)
        } else {
            files.insert(path, text)
        },
        SetupStepView::Run { call } => files,
    }
}

/// The files after the first `n` steps of a plan were made.
pub open spec fn after_steps(files: Files, plan: Seq<SetupStepView>, n: int) -> Files
    decreases n,
{
    if n <= 0 {
        files
    } else {
        after_step(after_steps(files, plan, n - 1), plan[n - 1])
    }
}

/// The files after a step was taken back.
pub open spec fn after_undo(files: Files, undo: UndoStepView) -> Files {
    match undo {
        UndoStepView::Restore { from, to } => if files.contains_key(from) {
            files.insert(to, files[from])
        } else {
            files
        },
        UndoStepView::Remove { path } => files.remove(path),
    }
}

/// The files after the undo steps from `from` on were made, in order.
pub open spec fn after_undos(files: Files, undos: Seq<UndoStepView>, from: int) -> Files
    decreases undos.len() - from,
{
    if from < 0 || from >= undos.len() {
        files
    } else {
        after_undos(after_undo(files, undos[from]), undos, from + 1)
    }
}

/// Whether step `i` of the plan changes a boot configuration file.
pub open spec fn changes_file(plan: Seq<SetupStepView>, i: int) -> bool {
    0 <= i < plan.len() && (plan[i] is Write || plan[i] is Append)
}

/// The backup that step `i` of the plan names, if it names one.
pub open spec fn backup_of(step: SetupStepView) -> Option<Seq<char>> {
    match step {
        SetupStepView::Write { path, text, backup } => backup,
        SetupStepView::Append { path, text, backup } => backup,
        _ => None,
    }
}

/// Whether a plan backs up what it changes, for a host with the given
/// files: no two steps write the same file; a step that changes a file
/// and names a backup changes a file that exists and follows the step
/// that makes that backup of that file; a step that changes a file and
/// names no backup creates the file.
pub open spec fn well_backed(plan: Seq<SetupStepView>, files: Files) -> bool {
    &&& forall|i: int, j: int|
        0 <= i < j < plan.len() && target(plan[i]) is Some ==> #[trigger] target(plan[i])
            != #[trigger] target(plan[j])
    &&& forall|i: int| #[trigger]
        changes_file(plan, i) && backup_of(plan[i]) is Some ==> i >= 1 && plan[i - 1]
            == (SetupStepView::Backup { path: target(plan[i])->0, to: backup_of(plan[i])->0 })
            && files.contains_key(target(plan[i])->0)
    &&& forall|i: int| #[trigger]
        changes_file(plan, i) && backup_of(plan[i]) is None ==> !files.contains_key(
            target(plan[i])->0,
        )
}

/// A file that none of the first `n` steps writes is after them as it
/// was before.
pub proof fn lemma_steps_leave_other_files(
    files: Files,
    plan: Seq<SetupStepView>,
    n: int,
    path: Seq<char>,
)
    requires
        0 <= n <= plan.len(),
        forall|i: int| 0 <= i < n ==> #[trigger] target(plan[i]) != Some(path),
    ensures
        alike(after_steps(files, plan, n), files, path),
    decreases n,
{
    if n > 0 {
        lemma_steps_leave_other_files(files, plan, n - 1, path);
        assert(target(plan[n - 1]) != Some(path));
    }
}

/// A file that no undo step from `from` on restores or removes is after
/// them as it was before.
pub proof fn lemma_undos_leave_other_files(
    files: Files,
    undos: Seq<UndoStepView>,
    from: int,
    path: Seq<char>,
)
    requires
        0 <= from,
        forall|i: int|
            from <= i < undos.len() ==> match #[trigger] undos[i] {
                UndoStepView::Restore { from, to } => to != path,
                UndoStepView::Remove { path: p } => p != path,
            },
    ensures
        alike(after_undos(files, undos, from), files, path),
    decreases undos.len() - from,
{
    if from < undos.len() {
        let next = after_undo(files, undos[from]);
        assert(alike(next, files, path));
        lemma_undos_leave_other_files(next, undos, from + 1, path);
    }
}


/// The files after the first `done` steps of a plan were taken back, the
/// last of them first.
pub open spec fn undone(files: Files, plan: Seq<SetupStepView>, done: int) -> Files
    decreases done,
{
    if done <= 0 {
        files
    } else {
        undone(after_undos(files, undo_of(plan[done - 1]), 0), plan, done - 1)
    }
}

/// Whether no step of the plan from `from` on writes the file.
pub open spec fn unwritten_from(plan: Seq<SetupStepView>, from: int, path: Seq<char>) -> bool {
    forall|i: int| from <= i < plan.len() && 0 <= i ==> #[trigger] target(plan[i]) != Some(path)
}

/// Whether the file is no backup that one of the first `done` steps of
/// the plan makes.
pub open spec fn no_backup_before(plan: Seq<SetupStepView>, done: int, path: Seq<char>) -> bool {
    forall|i: int|
        0 <= i < done && i < plan.len() && plan[i] is Backup ==> #[trigger] target(plan[i])
            != Some(path)
}

/// Whether none of the first `done` steps of the plan changes the file.
pub open spec fn unchanged_before(plan: Seq<SetupStepView>, done: int, path: Seq<char>) -> bool {
    forall|i: int| 0 <= i < done && #[trigger] changes_file(plan, i) ==> target(plan[i]) != Some(path)
}

/// The undo steps of one step, made on some files, touch no file but the
/// one that the step changes.
proof fn lemma_undo_of_step(files: Files, step: SetupStepView, path: Seq<char>)
    requires
        !((step is Write || step is Append) && target(step) == Some(path)),
    ensures
        alike(after_undos(files, undo_of(step), 0), files, path),
{
    let undos = undo_of(step);
    if undos.len() > 0 {
        assert(undos.len() == 1);
        let next = after_undo(files, undos[0]);
        assert(after_undos(next, undos, 1) == next);
        assert(after_undos(files, undos, 0) == next);
    }
}

/// Taking the first `done` steps back touches no file but those that the
/// steps change.
pub proof fn lemma_undone_leaves_other_files(
    files: Files,
    plan: Seq<SetupStepView>,
    done: int,
    path: Seq<char>,
)
    requires
        0 <= done <= plan.len(),
        unchanged_before(plan, done, path),
    ensures
        alike(undone(files, plan, done), files, path),
    decreases done,
{
    if done > 0 {
        let step = plan[done - 1];
        let next = after_undos(files, undo_of(step), 0);
        if step is Write || step is Append {
            assert(changes_file(plan, done - 1));
        }
        lemma_undo_of_step(files, step, path);
        assert forall|i: int| 0 <= i < done - 1 && #[trigger] changes_file(plan, i) implies target(
            plan[i],
        ) != Some(path) by {}
        lemma_undone_leaves_other_files(next, plan, done - 1, path);
    }
}

/// Whatever part of a well-backed plan was carried out, taking it back
/// leaves every file as it was, but for the backups.
///
/// `files` are the files of the host before the plan, `now` the files
/// after its first `done` steps, of which the last may have failed and
/// left the file that it writes in any state. After the first `done`
/// steps were taken back, every file is as it was in `files`, unless it
/// is a backup that one of those steps made, or a file that a later step
/// of the plan would have written.
pub proof fn lemma_taking_back_restores(
    plan: Seq<SetupStepView>,
    files: Files,
    done: int,
    now: Files,
)
    requires
        well_backed(plan, files),
        0 <= done <= plan.len(),
        forall|path: Seq<char>| #[trigger]
            unwritten_from(plan, done - 1, path) ==> alike(
                now,
                after_steps(files, plan, done),
                path,
            ),
    ensures
        forall|path: Seq<char>|
            unwritten_from(plan, done, path) && #[trigger] no_backup_before(plan, done, path)
                ==> alike(undone(now, plan, done), files, path),
    decreases done,
{
    if done == 0 {
        assert forall|path: Seq<char>|
            unwritten_from(plan, done, path) && #[trigger] no_backup_before(
                plan,
                done,
                path,
            ) implies alike(undone(now, plan, done), files, path) by {
            assert(unwritten_from(plan, done - 1, path));
        }
    } else {
        let step = plan[done - 1];
        let next = after_undos(now, undo_of(step), 0);
        // what the recursion needs of the files after this step was undone
        assert forall|path: Seq<char>| #[trigger]
            unwritten_from(plan, done - 2, path) implies alike(
            next,
            after_steps(files, plan, done - 1),
            path,
        ) by {
            assert(target(plan[done - 1]) != Some(path));
            assert(unwritten_from(plan, done - 1, path));
            lemma_undo_of_step(now, step, path);
        }
        lemma_taking_back_restores(plan, files, done - 1, next);
        assert forall|path: Seq<char>|
            unwritten_from(plan, done, path) && #[trigger] no_backup_before(
                plan,
                done,
                path,
            ) implies alike(undone(now, plan, done), files, path) by {
            if target(step) == Some(path) {
                // the file that this step changes
                assert(!(step is Backup));
                assert(changes_file(plan, done - 1));
                assert forall|i: int| 0 <= i < done - 1 implies #[trigger] target(plan[i])
                    != Some(path) by {
                    assert(target(plan[i]) != target(plan[done - 1]));
                }
                assert(unchanged_before(plan, done - 1, path));
                lemma_undone_leaves_other_files(next, plan, done - 1, path);
                match backup_of(step) {
                    Some(b) => {
                        assert(plan[done - 2] == (SetupStepView::Backup { path, to: b }));
                        assert(target(plan[done - 2]) == Some(b));
                        assert forall|i: int| done - 1 <= i < plan.len() && 0
                            <= i implies #[trigger] target(plan[i]) != Some(b) by {
                            assert(target(plan[done - 2]) != target(plan[i]));
                        }
                        assert(unwritten_from(plan, done - 1, b));
                        assert(alike(now, after_steps(files, plan, done), b));
                        assert forall|i: int| 0 <= i < done - 2 implies #[trigger] target(plan[i])
                            != Some(path) by {}
                        lemma_steps_leave_other_files(files, plan, done - 2, path);
                        assert(after_steps(files, plan, done - 1) == after_step(
                            after_steps(files, plan, done - 2),
                            plan[done - 2],
                        ));
                        assert(after_steps(files, plan, done - 1).contains_key(b));
                        assert(after_steps(files, plan, done - 1)[b] == files[path]);
                        assert(after_steps(files, plan, done)[b] == files[path]);
                        let undos = undo_of(step);
                        assert(undos.len() == 1);
                        let restored = after_undo(now, undos[0]);
                        assert(after_undos(restored, undos, 1) == restored);
                        assert(next == restored);
                        assert(alike(next, files, path));
                    },
                    None => {
                        let undos = undo_of(step);
                        assert(undos.len() == 1);
                        let removed = after_undo(now, undos[0]);
                        assert(after_undos(removed, undos, 1) == removed);
                        assert(next == removed);
                        assert(alike(next, files, path));
                    },
                }
            } else {
                assert(unwritten_from(plan, done - 1, path));
                assert(no_backup_before(plan, done - 1, path));
            }
        }
    }
}


/// The undo steps of a sequence that follows another are made as if the
/// other were not there.
proof fn lemma_undos_shift(files: Files, a: Seq<UndoStepView>, b: Seq<UndoStepView>, k: int)
    requires
        0 <= k <= b.len(),
    ensures
        after_undos(files, a + b, a.len() + k) == after_undos(files, b, k),
    decreases b.len() - k,
{
    if k < b.len() {
        assert((a + b)[a.len() + k] == b[k]);
        lemma_undos_shift(after_undo(files, b[k]), a, b, k + 1);
    }
}

/// Making the undo steps of two sequences in a row is making those of the
/// first and then those of the second.
proof fn lemma_undos_concat(files: Files, a: Seq<UndoStepView>, b: Seq<UndoStepView>, from: int)
    requires
        0 <= from <= a.len(),
    ensures
        after_undos(files, a + b, from) == after_undos(after_undos(files, a, from), b, 0),
    decreases a.len() - from,
{
    if from < a.len() {
        assert((a + b)[from] == a[from]);
        lemma_undos_concat(after_undo(files, a[from]), a, b, from + 1);
    } else {
        lemma_undos_shift(files, a, b, 0);
    }
}

/// Making the undo steps that `rollback_spec` lists takes the steps back,
/// the last of them first.
pub proof fn lemma_rollback_is_undone(files: Files, plan: Seq<SetupStepView>, done: int)
    requires
        0 <= done <= plan.len(),
    ensures
        after_undos(files, rollback_spec(plan, done), 0) == undone(files, plan, done),
    decreases done,
{
    if done > 0 {
        let first = undo_of(plan[done - 1]);
        let rest = rollback_spec(plan, done - 1);
        lemma_undos_concat(files, first, rest, 0);
        lemma_rollback_is_undone(after_undos(files, first, 0), plan, done - 1);
    }
}

/// Whether the changes can be backed up on a host with the given files,
/// of which `existing` are known to exist: the changes are to different
/// files, none of which is the backup of one of them, and a file that is
/// changed is known to exist exactly where it exists.
pub open spec fn backable(changes: Seq<FileChangeView>, existing: Seq<Seq<char>>, files: Files)
    -> bool {
    &&& forall|i: int, j: int|
        0 <= i < j < changes.len() ==> (#[trigger] changes[i]).path != (#[trigger] changes[j]).path
    &&& forall|i: int, j: int|
        0 <= i < changes.len() && 0 <= j < changes.len() ==> (#[trigger] changes[i]).path
            + BACKUP_SUFFIX@ != (#[trigger] changes[j]).path
    &&& forall|i: int|
        0 <= i < changes.len() ==> existing.contains((#[trigger] changes[i]).path)
            == files.contains_key(changes[i].path)
}

/// Whether the file is one of the first `n` changed files or the backup
/// of one of them.
pub open spec fn belongs(changes: Seq<FileChangeView>, n: int, path: Seq<char>) -> bool {
    exists|i: int|
        0 <= i < n && i < changes.len() && ((#[trigger] changes[i]).path == path || changes[i].path
            + BACKUP_SUFFIX@ == path)
}

/// Whether a step of the plan changes the file.
pub open spec fn writes(plan: Seq<SetupStepView>, path: Seq<char>) -> bool {
    exists|k: int| #[trigger] changes_file(plan, k) && target(plan[k]) == Some(path)
}

/// Two paths with the same backup are the same.
proof fn lemma_same_backup(a: Seq<char>, b: Seq<char>)
    requires
        a + BACKUP_SUFFIX@ == b + BACKUP_SUFFIX@,
    ensures
        a == b,
{
    let s = BACKUP_SUFFIX@;
    assert((a + s).len() == (b + s).len());
    assert(a.len() == b.len());
    assert forall|i: int| 0 <= i < a.len() implies a[i] == b[i] by {
        assert((a + s)[i] == a[i]);
        assert((b + s)[i] == b[i]);
    }
    assert(a =~= b);
}

/// The steps that make changes that can be backed up are well backed, and
/// write no file but the changed files and their backups.
proof fn lemma_file_steps_well_backed(
    changes: Seq<FileChangeView>,
    existing: Seq<Seq<char>>,
    files: Files,
    n: int,
)
    requires
        backable(changes, existing, files),
        0 <= n <= changes.len(),
    ensures
        well_backed(file_steps(changes, existing, n), files),
        forall|k: int|
            0 <= k < file_steps(changes, existing, n).len() ==> (#[trigger] file_steps(
                changes,
                existing,
                n,
            )[k]) !is Run && belongs(changes, n, target(file_steps(changes, existing, n)[k])->0),
        forall|i: int|
            0 <= i < n ==> writes(file_steps(changes, existing, n), (#[trigger] changes[i]).path),
    decreases n,
{
    if n > 0 {
        lemma_file_steps_well_backed(changes, existing, files, n - 1);
        let before = file_steps(changes, existing, n - 1);
        let c = changes[n - 1];
        let existed = existing.contains(c.path);
        let block = steps_for(c, existed);
        let plan = file_steps(changes, existing, n);
        assert(plan == before + block);
        let m = before.len() as int;
        let bak = c.path + BACKUP_SUFFIX@;
        assert(c.path + BACKUP_SUFFIX@ != c.path);
        // every step writes a changed file or a backup of one
        assert forall|k: int| 0 <= k < plan.len() implies (#[trigger] plan[k]) !is Run && belongs(
            changes,
            n,
            target(plan[k])->0,
        ) by {
            if k < m {
                assert(plan[k] == before[k]);
                let t = target(before[k])->0;
                assert(belongs(changes, n - 1, t));
                let i = choose|i: int|
                    0 <= i < n - 1 && i < changes.len() && ((#[trigger] changes[i]).path == t
                        || changes[i].path + BACKUP_SUFFIX@ == t);
                assert(0 <= i < n && (changes[i].path == t || changes[i].path + BACKUP_SUFFIX@
                    == t));
            } else {
                assert(plan[k] == block[k - m]);
                assert(changes[n - 1].path == c.path);
            }
        }
        // no file of the new block is written before
        assert forall|k: int| 0 <= k < m implies target(#[trigger] before[k]) != Some(c.path)
            && target(before[k]) != Some(bak) by {
            let t = target(before[k])->0;
            assert(belongs(changes, n - 1, t));
            let i = choose|i: int|
                0 <= i < n - 1 && i < changes.len() && ((#[trigger] changes[i]).path == t
                    || changes[i].path + BACKUP_SUFFIX@ == t);
            assert(changes[i].path != changes[n - 1].path);
            assert(changes[i].path + BACKUP_SUFFIX@ != changes[n - 1].path);
            assert(changes[n - 1].path + BACKUP_SUFFIX@ != changes[i].path);
            if changes[i].path + BACKUP_SUFFIX@ == bak {
                lemma_same_backup(changes[i].path, c.path);
            }
        }
        assert forall|i: int, j: int|
            0 <= i < j < plan.len() && target(plan[i]) is Some implies #[trigger] target(plan[i])
            != #[trigger] target(plan[j]) by {
            if j < m {
                assert(plan[i] == before[i] && plan[j] == before[j]);
            } else if i < m {
                assert(plan[i] == before[i]);
                assert(plan[j] == block[j - m]);
            } else {
                assert(plan[i] == block[i - m]);
                assert(plan[j] == block[j - m]);
            }
        }
        assert forall|i: int| #[trigger]
            changes_file(plan, i) && backup_of(plan[i]) is Some implies i >= 1 && plan[i - 1]
            == (SetupStepView::Backup { path: target(plan[i])->0, to: backup_of(plan[i])->0 })
            && files.contains_key(target(plan[i])->0) by {
            if i < m {
                assert(plan[i] == before[i]);
                assert(changes_file(before, i));
                assert(plan[i - 1] == before[i - 1]);
            } else {
                assert(plan[i] == block[i - m]);
                assert(existed);
                assert(i == m + 1);
                assert(plan[i - 1] == block[0]);
                assert(files.contains_key(changes[n - 1].path));
            }
        }
        assert forall|i: int| #[trigger]
            changes_file(plan, i) && backup_of(plan[i]) is None implies !files.contains_key(
            target(plan[i])->0,
        ) by {
            if i < m {
                assert(plan[i] == before[i]);
                assert(changes_file(before, i));
            } else {
                assert(plan[i] == block[i - m]);
                assert(!existed);
                assert(!files.contains_key(changes[n - 1].path));
            }
        }
        // every changed file is written by a step
        assert forall|i: int| 0 <= i < n implies writes(plan, (#[trigger] changes[i]).path) by {
            if i < n - 1 {
                assert(writes(before, changes[i].path));
                let k = choose|k: int| #[trigger]
                    changes_file(before, k) && target(before[k]) == Some(changes[i].path);
                assert(plan[k] == before[k]);
                assert(changes_file(plan, k));
            } else {
                let k = plan.len() - 1;
                assert(plan[k] == block[block.len() - 1]);
                assert(changes_file(plan, k));
            }
        }
    }
}

/// The plan of a boot manager is well backed where its changes can be
/// backed up, and changes every file that it is to change.
pub proof fn lemma_setup_plan_well_backed(
    bt: BootTypeView,
    boot_dir: Seq<char>,
    opts: Seq<char>,
    existing: Seq<Seq<char>>,
    cmds: Map<Seq<char>, Seq<char>>,
    files: Files,
)
    requires
        backable(changes_spec(bt, boot_dir, opts), existing, files),
    ensures
        well_backed(setup_plan(bt, boot_dir, opts, existing, cmds), files),
        forall|i: int|
            0 <= i < changes_spec(bt, boot_dir, opts).len() ==> writes(
                setup_plan(bt, boot_dir, opts, existing, cmds),
                (#[trigger] changes_spec(bt, boot_dir, opts)[i]).path,
            ),
{
    let changes = changes_spec(bt, boot_dir, opts);
    let n = changes.len() as int;
    let head = file_steps(changes, existing, n);
    let tail = command_steps(bt, cmds);
    let plan = setup_plan(bt, boot_dir, opts, existing, cmds);
    lemma_file_steps_well_backed(changes, existing, files, n);
    assert(plan == head + tail);
    let m = head.len() as int;
    assert forall|k: int| m <= k < plan.len() implies (#[trigger] plan[k]) is Run by {
        assert(plan[k] == tail[k - m]);
    }
    assert forall|k: int| 0 <= k < m implies (#[trigger] plan[k]) == head[k] by {}
    assert forall|i: int, j: int|
        0 <= i < j < plan.len() && target(plan[i]) is Some implies #[trigger] target(plan[i])
        != #[trigger] target(plan[j]) by {
        if j < m {
            assert(plan[i] == head[i] && plan[j] == head[j]);
        } else {
            assert(plan[j] is Run);
        }
    }
    assert forall|i: int| #[trigger]
        changes_file(plan, i) && backup_of(plan[i]) is Some implies i >= 1 && plan[i - 1]
        == (SetupStepView::Backup { path: target(plan[i])->0, to: backup_of(plan[i])->0 })
        && files.contains_key(target(plan[i])->0) by {
        if i < m {
            assert(plan[i] == head[i]);
            assert(changes_file(head, i));
            assert(plan[i - 1] == head[i - 1]);
        } else {
            assert(plan[i] is Run);
        }
    }
    assert forall|i: int| #[trigger]
        changes_file(plan, i) && backup_of(plan[i]) is None implies !files.contains_key(
        target(plan[i])->0,
    ) by {
        if i < m {
            assert(plan[i] == head[i]);
            assert(changes_file(head, i));
        } else {
            assert(plan[i] is Run);
        }
    }
    assert forall|i: int| 0 <= i < n implies writes(plan, (#[trigger] changes[i]).path) by {
        assert(writes(head, changes[i].path));
        let k = choose|k: int| #[trigger]
            changes_file(head, k) && target(head[k]) == Some(changes[i].path);
        assert(plan[k] == head[k]);
        assert(changes_file(plan, k));
    }
}

/// A failure of a well-backed plan is taken back.
///
/// `files` are the files of the host before the plan, `now` the files
/// after its first `done` steps, of which the last may have failed and
/// left the file that it writes in any state. After the undo steps that
/// `rollback_spec` lists for the first `done` steps, every file that the
/// plan changes is as it was in `files`.
pub proof fn lemma_failure_is_taken_back(
    plan: Seq<SetupStepView>,
    files: Files,
    done: int,
    now: Files,
    path: Seq<char>,
)
    requires
        well_backed(plan, files),
        writes(plan, path),
        0 <= done <= plan.len(),
        forall|other: Seq<char>|
            done == 0 || target(plan[done - 1]) != Some(other) ==> #[trigger] alike(
                now,
                after_steps(files, plan, done),
                other,
            ),
    ensures
        alike(after_undos(now, rollback_spec(plan, done), 0), files, path),
{
    lemma_rollback_is_undone(now, plan, done);
    let k = choose|k: int| #[trigger] changes_file(plan, k) && target(plan[k]) == Some(path);
    assert forall|i: int| 0 <= i < plan.len() && i != k implies #[trigger] target(plan[i])
        != Some(path) by {
        if i < k {
            assert(target(plan[i]) != target(plan[k]));
        } else {
            assert(target(plan[k]) != target(plan[i]));
        }
    }
    if k < done {
        assert(unwritten_from(plan, done, path));
        assert(no_backup_before(plan, done, path));
        assert forall|other: Seq<char>| #[trigger]
            unwritten_from(plan, done - 1, other) implies alike(
            now,
            after_steps(files, plan, done),
            other,
        ) by {
            if done > 0 {
                assert(target(plan[done - 1]) != Some(other));
            }
        }
        lemma_taking_back_restores(plan, files, done, now);
    } else {
        if done > 0 {
            assert(target(plan[done - 1]) != Some(path));
        }
        assert(alike(now, after_steps(files, plan, done), path));
        lemma_steps_leave_other_files(files, plan, done, path);
        assert(unchanged_before(plan, done, path));
        lemma_undone_leaves_other_files(now, plan, done, path);
    }
}



/// The changes of every boot manager can be backed up, on a host of
/// which it is known which of the changed files exist.
pub proof fn lemma_changes_are_backable(
    bt: BootTypeView,
    boot_dir: Seq<char>,
    opts: Seq<char>,
    existing: Seq<Seq<char>>,
    files: Files,
)
    requires
        forall|i: int|
            0 <= i < changes_spec(bt, boot_dir, opts).len() ==> existing.contains(
                (#[trigger] changes_spec(bt, boot_dir, opts)[i]).path,
            ) == files.contains_key(changes_spec(bt, boot_dir, opts)[i].path),
    ensures
        backable(changes_spec(bt, boot_dir, opts), existing, files),
{
    reveal_strlit(".bak");
    reveal_strlit("config.txt");
    reveal_strlit("cmdline.txt");
    reveal_strlit("/");
    assert(BACKUP_SUFFIX@.len() == 4);
    assert(RASPI_CONFIG_FILE@.len() == 10);
    assert(RASPI_CMDLINE_FILE@.len() == 11);
    assert("/"@.len() == 1);
    let changes = changes_spec(bt, boot_dir, opts);
    if changes.len() == 2 {
        let a = changes[0].path;
        let b = changes[1].path;
        assert(a == join_path(boot_dir, RASPI_CONFIG_FILE@));
        assert(b == join_path(boot_dir, RASPI_CMDLINE_FILE@));
        assert(b.len() == a.len() + 1);
        assert((a + BACKUP_SUFFIX@).len() == a.len() + 4);
        assert((b + BACKUP_SUFFIX@).len() == b.len() + 4);
    }
    assert forall|i: int, j: int| 0 <= i < changes.len() && 0 <= j < changes.len() implies (
    #[trigger] changes[i]).path + BACKUP_SUFFIX@ != (#[trigger] changes[j]).path by {
        assert((changes[i].path + BACKUP_SUFFIX@).len() == changes[i].path.len() + 4);
    }
}

/// A failed change of the boot configuration is taken back: whatever part
/// of the plan of a boot manager was carried out, and whatever the step
/// that failed has left of the file that it was at, the undo steps that
/// `rollback_spec` lists leave every boot configuration file that the
/// plan changes as it was before.
///
/// `files` are the files of the host before the plan, of which `existing`
/// tells truly which of the files to change exist. `now` are the files
/// after the first `done` steps of the plan, but for the file that the
/// last of them writes, which may be in any state.
pub proof fn lemma_failed_setup_is_taken_back(
    bt: BootTypeView,
    boot_dir: Seq<char>,
    opts: Seq<char>,
    existing: Seq<Seq<char>>,
    cmds: Map<Seq<char>, Seq<char>>,
    files: Files,
    done: int,
    now: Files,
    i: int,
)
    requires
        forall|k: int|
            0 <= k < changes_spec(bt, boot_dir, opts).len() ==> existing.contains(
                (#[trigger] changes_spec(bt, boot_dir, opts)[k]).path,
            ) == files.contains_key(changes_spec(bt, boot_dir, opts)[k].path),
        0 <= done <= setup_plan(bt, boot_dir, opts, existing, cmds).len(),
        forall|other: Seq<char>|
            done == 0 || target(setup_plan(bt, boot_dir, opts, existing, cmds)[done - 1]) != Some(
                other,
            ) ==> #[trigger] alike(
                now,
                after_steps(files, setup_plan(bt, boot_dir, opts, existing, cmds), done),
                other,
            ),
        0 <= i < changes_spec(bt, boot_dir, opts).len(),
    ensures
        alike(
            after_undos(now, rollback_spec(setup_plan(bt, boot_dir, opts, existing, cmds), done), 0),
            files,
            changes_spec(bt, boot_dir, opts)[i].path,
        ),
{
    let plan = setup_plan(bt, boot_dir, opts, existing, cmds);
    lemma_changes_are_backable(bt, boot_dir, opts, existing, files);
    lemma_setup_plan_well_backed(bt, boot_dir, opts, existing, cmds, files);
    lemma_failure_is_taken_back(plan, files, done, now, changes_spec(bt, boot_dir, opts)[i].path);
}

} // verus!
