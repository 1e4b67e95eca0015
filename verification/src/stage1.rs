//! Stage 1: what runs under the system that is to be replaced. It stages
//! the files of stage 2 on the boot partition, writes the hand-over
//! record, changes the boot configuration and restarts the host. Until
//! the boot configuration is touched, a failure leaves nothing behind;
//! from then on, a failure takes the change back.
//!
//! `plan_migration` decides all of that before anything is touched.
//! `migrate` is the step function that carries the plan out: from the
//! state and from how the last action went, it gives the next state and
//! the next action. The caller performs the action and reports back.

use vstd::prelude::*;
use vstd::string::*;

use crate::boot_manager::{
    rollback, rollback_spec, steps_view, undos_view, SetupStep, SetupStepView, UndoStep,
    UndoStepView,
};
use crate::error::{MigError, MigErrorKind};

verus! {

/// A file to copy.
#[derive(Debug, PartialEq, Eq)]
pub struct CopyOp {
    pub from: String,
    pub to: String,
}

/// The mathematical content of a `CopyOp`.
pub struct CopyOpView {
    pub from: Seq<char>,
    pub to: Seq<char>,
}

impl View for CopyOp {
    type V = CopyOpView;

    open spec fn view(&self) -> CopyOpView {
        CopyOpView { from: self.from@, to: self.to@ }
    }
}

impl Clone for CopyOp {
    fn clone(&self) -> (r: Self)
        ensures
            r == *self,
    {
        CopyOp { from: self.from.clone(), to: self.to.clone() }
    }
}

/// The views of a sequence of copies.
pub open spec fn copies_view(v: Seq<CopyOp>) -> Seq<CopyOpView> {
    Seq::new(v.len(), |i: int| v[i]@)
}

/// What stage 1 is to do.
#[derive(Debug, PartialEq, Eq)]
pub struct Stage1Plan {
    /// The files to stage on the boot partition, in order.
    pub copies: Vec<CopyOp>,
    /// Where the hand-over record goes.
    pub descriptor_path: String,
    /// The text of the hand-over record.
    pub descriptor_text: String,
    /// The change of the boot configuration, step by step.
    pub setup: Vec<SetupStep>,
}

/// The mathematical content of a `Stage1Plan`.
pub struct Stage1PlanView {
    pub copies: Seq<CopyOpView>,
    pub descriptor_path: Seq<char>,
    pub descriptor_text: Seq<char>,
    pub setup: Seq<SetupStepView>,
}

impl View for Stage1Plan {
    type V = Stage1PlanView;

    open spec fn view(&self) -> Stage1PlanView {
        Stage1PlanView {
            copies: copies_view(self.copies@),
            descriptor_path: self.descriptor_path@,
            descriptor_text: self.descriptor_text@,
            setup: steps_view(self.setup@),
        }
    }
}

impl Stage1PlanView {
    /// The files that the plan creates, in the order in which it creates
    /// them: the staged files, then the hand-over record.
    pub open spec fn created(self) -> Seq<Seq<char>> {
        Seq::new(self.copies.len() + 1, |i: int| self.created_at(i))
    }

    /// The file that the plan creates at position `i`.
    pub open spec fn created_at(self, i: int) -> Seq<char> {
        if i < self.copies.len() {
            self.copies[i].to
        } else {
            self.descriptor_path
        }
    }
}

/// Where stage 1 stands. A phase is named after the action that is under
/// way in it.
#[derive(Clone, Copy, Debug, PartialEq, Eq, Structural)]
pub enum Stage1Phase {
    /// Nothing was done yet.
    Start,
    /// Copying one of the files to stage.
    Staging(usize),
    /// Writing the hand-over record.
    WriteDescriptor,
    /// Making one step of the change of the boot configuration.
    Setup(usize),
    /// Restarting the host.
    Reboot,
    /// Taking one of the steps of the change back.
    Rollback(usize),
    /// Removing one of the created files: the one at the position before
    /// the number.
    Cleanup(usize),
    /// Telling the failure, or the end after a cancellation.
    Failed,
    /// The host restarts into stage 2: nothing is left to do.
    Armed,
}

/// What the caller is to do next.
#[derive(Debug, PartialEq, Eq)]
pub enum Stage1Action {
    /// Copy the file.
    Copy(CopyOp),
    /// Write the text to a new file.
    WriteFile { path: String, text: String },
    /// Make the step of the change of the boot configuration.
    Setup(SetupStep),
    /// Restart the host.
    Reboot,
    /// Take a step of the change of the boot configuration back.
    Undo(UndoStep),
    /// Remove the file.
    Remove { path: String },
    /// Give up with an error of the kind, without a restart.
    Fail(MigErrorKind),
    /// Return: the restart is under way.
    Exit,
}

/// The mathematical content of a `Stage1Action`.
pub enum Stage1ActionView {
    Copy(CopyOpView),
    WriteFile { path: Seq<char>, text: Seq<char> },
    Setup(SetupStepView),
    Reboot,
    Undo(UndoStepView),
    Remove { path: Seq<char> },
    Fail(MigErrorKind),
    Exit,
}

impl View for Stage1Action {
    type V = Stage1ActionView;

    open spec fn view(&self) -> Stage1ActionView {
        match self {
            Stage1Action::Copy(c) => Stage1ActionView::Copy(c@),
            Stage1Action::WriteFile { path, text } => Stage1ActionView::WriteFile {
                path: path@,
                text: text@,
            },
            Stage1Action::Setup(s) => Stage1ActionView::Setup(s@),
            Stage1Action::Reboot => Stage1ActionView::Reboot,
            Stage1Action::Undo(u) => Stage1ActionView::Undo(u@),
            Stage1Action::Remove { path } => Stage1ActionView::Remove { path: path@ },
            Stage1Action::Fail(k) => Stage1ActionView::Fail(*k),
            Stage1Action::Exit => Stage1ActionView::Exit,
        }
    }
}

/// The state of stage 1.
#[derive(Debug, PartialEq, Eq)]
pub struct Stage1State {
    phase: Stage1Phase,
    plan: Stage1Plan,
    undo: Vec<UndoStep>,
    error: Option<MigErrorKind>,
}

/// The mathematical content of a `Stage1State`.
pub struct Stage1StateView {
    /// Where stage 1 stands.
    pub phase: Stage1Phase,
    /// What stage 1 is to do.
    pub plan: Stage1PlanView,
    /// What takes the change of the boot configuration back, once it has
    /// failed.
    pub undo: Seq<UndoStepView>,
    /// The kind of the failure, once there is one.
    pub error: Option<MigErrorKind>,
}

impl View for Stage1State {
    type V = Stage1StateView;

    closed spec fn view(&self) -> Stage1StateView {
        Stage1StateView {
            phase: self.phase,
            plan: self.plan@,
            undo: undos_view(self.undo@),
            error: self.error,
        }
    }
}

impl Stage1StateView {
    /// The state before anything was done.
    pub open spec fn initial(plan: Stage1PlanView) -> Stage1StateView {
        Stage1StateView { phase: Stage1Phase::Start, plan, undo: Seq::empty(), error: None }
    }

    /// The state in the given phase.
    pub open spec fn at(self, phase: Stage1Phase) -> Stage1StateView {
        Stage1StateView { phase, ..self }
    }

    /// The state that removes the first `created` of the created files,
    /// the last of them first, and then tells a failure of the given
    /// kind.
    pub open spec fn clean(self, created: nat, kind: MigErrorKind) -> Stage1StateView {
        Stage1StateView { phase: cleanup_phase(created), error: Some(kind), ..self }
    }

    /// The state that removes the first `created` of the created files,
    /// the last of them first, and then ends without a failure.
    pub open spec fn quit(self, created: nat) -> Stage1StateView {
        Stage1StateView { phase: cleanup_phase(created), error: None, ..self }
    }

    /// The state that takes the first `done` steps of the change of the
    /// boot configuration back, the last of them first, then removes every
    /// created file, and then tells a failure of the given kind.
    pub open spec fn take_back(self, done: int, kind: MigErrorKind) -> Stage1StateView {
        Stage1StateView {
            phase: if rollback_spec(self.plan.setup, done).len() > 0 {
                Stage1Phase::Rollback(0)
            } else {
                cleanup_phase(self.plan.copies.len() + 1)
            },
            undo: rollback_spec(self.plan.setup, done),
            error: Some(kind),
            ..self
        }
    }
}

/// The phase that removes the first `created` of the created files: the
/// failure at once, where there is none to remove.
pub open spec fn cleanup_phase(created: nat) -> Stage1Phase {
    if created > 0 {
        Stage1Phase::Cleanup(created as usize)
    } else {
        Stage1Phase::Failed
    }
}

/// The phase that follows the writing of the hand-over record: the first
/// step of the change of the boot configuration, or the restart where
/// there is none.
pub open spec fn setup_phase(done: nat, steps: nat) -> Stage1Phase {
    if done < steps {
        Stage1Phase::Setup(done as usize)
    } else {
        Stage1Phase::Reboot
    }
}

/// The kind of the failure of a step of the change of the boot
/// configuration: `BackupFailed` for a backup, `CommitFailed` for any
/// other step.
pub open spec fn setup_failure(step: SetupStepView) -> MigErrorKind {
    if step is Backup {
        MigErrorKind::BackupFailed
    } else {
        MigErrorKind::CommitFailed
    }
}

/// The state that follows `s` when the action of `s` succeeded (`ok`) or
/// failed.
///
/// While files are staged and the record is written, a failure makes
/// stage 1 remove every file that it has created, the one that it was
/// about to create too, and then fail with `IoError`. From the first step
/// of the change of the boot configuration on, a failure makes it take
/// back every step that it has made, the one that failed too, then remove
/// the created files, and then fail: see `setup_failure`; a restart that
/// fails counts as `CommitFailed`. Taking back and removing go on whatever
/// comes of them.
pub open spec fn next_state(s: Stage1StateView, ok: bool) -> Stage1StateView {
    let n = s.plan.copies.len();
    let m = s.plan.setup.len();
    match s.phase {
        Stage1Phase::Start => if n > 0 {
            s.at(Stage1Phase::Staging(0))
        } else {
            s.at(Stage1Phase::WriteDescriptor)
        },
        Stage1Phase::Staging(i) => if !ok {
            s.clean((i + 1) as nat, MigErrorKind::IoError)
        } else if i + 1 < n {
            s.at(Stage1Phase::Staging((i + 1) as usize))
        } else {
            s.at(Stage1Phase::WriteDescriptor)
        },
        Stage1Phase::WriteDescriptor => if !ok {
            s.clean(n + 1, MigErrorKind::IoError)
        } else {
            s.at(setup_phase(0, m))
        },
        Stage1Phase::Setup(j) => if !ok {
            if j < m {
                s.take_back(j + 1, setup_failure(s.plan.setup[j as int]))
            } else {
                s.take_back(m as int, MigErrorKind::CommitFailed)
            }
        } else {
            s.at(setup_phase((j + 1) as nat, m))
        },
        Stage1Phase::Reboot => if !ok {
            s.take_back(m as int, MigErrorKind::CommitFailed)
        } else {
            s.at(Stage1Phase::Armed)
        },
        Stage1Phase::Rollback(k) => if k + 1 < s.undo.len() {
            s.at(Stage1Phase::Rollback((k + 1) as usize))
        } else {
            s.at(cleanup_phase(n + 1))
        },
        Stage1Phase::Cleanup(c) => if c > 1 {
            s.at(Stage1Phase::Cleanup((c - 1) as usize))
        } else {
            s.at(Stage1Phase::Failed)
        },
        Stage1Phase::Failed => s,
        Stage1Phase::Armed => s,
    }
}

/// The state that follows `s` when stage 1 is cancelled after the action
/// of `s` succeeded (`ok`) or failed.
///
/// Before the change of the boot configuration has begun, stage 1
/// removes every file that it has created, the one that it was about to
/// create too, and ends without a failure. Once the change has begun,
/// stage 1 cannot be cancelled: it goes on as `next_state` says.
pub open spec fn cancelled(s: Stage1StateView, ok: bool) -> Stage1StateView {
    match s.phase {
        Stage1Phase::Start => s.quit(0),
        Stage1Phase::Staging(i) => s.quit((i + 1) as nat),
        Stage1Phase::WriteDescriptor => s.quit(s.plan.copies.len() + 1),
        _ => next_state(s, ok),
    }
}

/// The action that is under way in state `s`.
///
/// A phase that stands at an item that is not there has the action
/// `Exit`; no state that `next_state` leads to from an initial state is
/// like that. The end after a cancellation has the action `Exit` too.
pub open spec fn action_of(s: Stage1StateView) -> Stage1ActionView {
    match s.phase {
        Stage1Phase::Start => Stage1ActionView::Exit,
        Stage1Phase::Staging(i) => if i < s.plan.copies.len() {
            Stage1ActionView::Copy(s.plan.copies[i as int])
        } else {
            Stage1ActionView::Exit
        },
        Stage1Phase::WriteDescriptor => Stage1ActionView::WriteFile {
            path: s.plan.descriptor_path,
            text: s.plan.descriptor_text,
        },
        Stage1Phase::Setup(j) => if j < s.plan.setup.len() {
            Stage1ActionView::Setup(s.plan.setup[j as int])
        } else {
            Stage1ActionView::Exit
        },
        Stage1Phase::Reboot => Stage1ActionView::Reboot,
        Stage1Phase::Rollback(k) => if k < s.undo.len() {
            Stage1ActionView::Undo(s.undo[k as int])
        } else {
            Stage1ActionView::Exit
        },
        Stage1Phase::Cleanup(c) => if 1 <= c <= s.plan.copies.len() + 1 {
            Stage1ActionView::Remove { path: s.plan.created_at(c - 1) }
        } else {
            Stage1ActionView::Exit
        },
        Stage1Phase::Failed => match s.error {
            Some(kind) => Stage1ActionView::Fail(kind),
            None => Stage1ActionView::Exit,
        },
        Stage1Phase::Armed => Stage1ActionView::Exit,
    }
}

/// What holds of every state that stage 1 can be in: every phase stands
/// at an item that is there, and what is taken back is what
/// `rollback_spec` says, for a failure that has a kind.
pub open spec fn wf(s: Stage1StateView) -> bool {
    &&& s.plan.copies.len() + 1 <= usize::MAX
    &&& match s.phase {
        Stage1Phase::Start => s.error is None,
        Stage1Phase::Staging(i) => i < s.plan.copies.len() && s.error is None,
        Stage1Phase::WriteDescriptor => s.error is None,
        Stage1Phase::Setup(j) => j < s.plan.setup.len() && s.error is None,
        Stage1Phase::Reboot => s.error is None,
        Stage1Phase::Rollback(k) => k < s.undo.len() && s.error is Some && exists|done: int|
            s.undo == rollback_spec(s.plan.setup, done),
        Stage1Phase::Cleanup(c) => 1 <= c <= s.plan.copies.len() + 1,
        Stage1Phase::Failed => true,
        Stage1Phase::Armed => s.error is None,
    }
}

/// How many of the files that stage 1 was told to create it was not yet
/// told to remove. The file that is being created counts as created, the
/// one that is being removed as removed.
pub open spec fn files_left(s: Stage1StateView) -> nat {
    match s.phase {
        Stage1Phase::Start => 0,
        Stage1Phase::Staging(i) => (i + 1) as nat,
        Stage1Phase::Cleanup(c) => (c - 1) as nat,
        Stage1Phase::Failed => 0,
        _ => s.plan.copies.len() + 1,
    }
}

/// Whether stage 1 has begun to change the boot configuration.
pub open spec fn committed(phase: Stage1Phase) -> bool {
    phase is Setup || phase is Reboot || phase is Rollback || phase is Armed
}

/// Stage 1 begins in a state that is as it should be, and every step
/// leads from such a state to such a state.
pub proof fn lemma_next_wf(s: Stage1StateView, ok: bool)
    requires
        wf(s),
    ensures
        wf(next_state(s, ok)),
        wf(cancelled(s, ok)),
{
    match s.phase {
        Stage1Phase::Setup(j) => {
            if !ok {
                let t = next_state(s, ok);
                assert(t.undo == rollback_spec(s.plan.setup, j + 1));
            }
        },
        Stage1Phase::Reboot => {
            if !ok {
                let t = next_state(s, ok);
                assert(t.undo == rollback_spec(s.plan.setup, s.plan.setup.len() as int));
            }
        },
        _ => {},
    }
}

/// The files that stage 1 creates and removes are accounted for: every
/// action that creates a file adds one to the files that are left, every
/// action that removes one takes one away, and no other action changes
/// their number. Stage 1 begins with none, and fails with none: whatever
/// it was told to create before a failure, it was told to remove.
pub proof fn lemma_failure_leaves_no_file(s: Stage1StateView, ok: bool)
    requires
        wf(s),
        s.phase != Stage1Phase::Failed,
        s.phase != Stage1Phase::Armed,
    ensures
        files_left(Stage1StateView::initial(s.plan)) == 0,
        next_state(s, ok).phase == Stage1Phase::Failed ==> files_left(next_state(s, ok)) == 0,
        files_left(next_state(s, ok)) == files_left(s) + (if action_of(next_state(s, ok)) is Copy
            || action_of(next_state(s, ok)) is WriteFile {
            1int
        } else {
            0int
        }) - (if action_of(next_state(s, ok)) is Remove {
            1int
        } else {
            0int
        }),
        action_of(next_state(s, ok)) matches Stage1ActionView::Remove { path } ==> path
            == s.plan.created_at(files_left(s) - 1),
        action_of(next_state(s, ok)) matches Stage1ActionView::Copy(c) ==> c.to
            == s.plan.created_at(files_left(s) as int),
        action_of(next_state(s, ok)) matches Stage1ActionView::WriteFile { path, text } ==> path
            == s.plan.created_at(files_left(s) as int),
{
    lemma_next_wf(s, ok);
}

/// A cancellation before the change of the boot configuration leaves no
/// file behind and touches nothing of that configuration: stage 1 removes
/// every file that it was told to create, and then ends.
pub proof fn lemma_cancellation_leaves_no_file(s: Stage1StateView, ok: bool)
    requires
        wf(s),
        !committed(s.phase),
        s.phase != Stage1Phase::Failed,
        !(s.phase is Cleanup),
    ensures
        files_left(cancelled(s, ok)) == files_left(s) - (if action_of(cancelled(s, ok)) is Remove {
            1int
        } else {
            0int
        }),
        cancelled(s, ok).phase is Cleanup || cancelled(s, ok).phase == Stage1Phase::Failed,
        cancelled(s, ok).error is None,
        cancelled(s, ok).phase == Stage1Phase::Failed ==> action_of(cancelled(s, ok))
            == Stage1ActionView::Exit,
{
}

/// No failure before the change of the boot configuration touches that
/// configuration: before the first step of the change, stage 1 issues no
/// step of it and takes none back.
pub proof fn lemma_no_change_before_commit(s: Stage1StateView, ok: bool)
    requires
        wf(s),
        !committed(s.phase),
    ensures
        !(action_of(s) is Setup) && !(action_of(s) is Undo) && !(action_of(s) is Reboot),
        next_state(s, ok).phase is Rollback ==> false,
{
}

/// A failure of the change of the boot configuration takes back exactly
/// the steps that were made, the failed one too, the last of them first;
/// a failure of the restart takes back all of them. The failure that is
/// told in the end is `BackupFailed` or `CommitFailed`.
pub proof fn lemma_commit_failure_is_taken_back(s: Stage1StateView)
    requires
        wf(s),
    ensures
        s.phase matches Stage1Phase::Setup(j) ==> next_state(s, false).undo == rollback_spec(
            s.plan.setup,
            j + 1,
        ) && next_state(s, false).error == Some(setup_failure(s.plan.setup[j as int])),
        s.phase == Stage1Phase::Reboot ==> next_state(s, false).undo == rollback_spec(
            s.plan.setup,
            s.plan.setup.len() as int,
        ) && next_state(s, false).error == Some(MigErrorKind::CommitFailed),
        s.phase matches Stage1Phase::Rollback(k) ==> action_of(s) == Stage1ActionView::Undo(
            s.undo[k as int],
        ),
        committed(s.phase) && !(s.phase is Armed) ==> !(action_of(next_state(s, false))
            is Reboot) && !(next_state(s, false).phase is Armed),
{
}


fn cleanup_of(created: usize) -> (r: Stage1Phase)
    ensures
        r == cleanup_phase(created as nat),
{
    if created > 0 {
        Stage1Phase::Cleanup(created)
    } else {
        Stage1Phase::Failed
    }
}

fn setup_of(done: usize, steps: usize) -> (r: Stage1Phase)
    ensures
        r == setup_phase(done as nat, steps as nat),
{
    if done < steps {
        Stage1Phase::Setup(done)
    } else {
        Stage1Phase::Reboot
    }
}

impl Stage1State {
    /// Every state of stage 1 is as `wf` says.
    #[verifier::type_invariant]
    closed spec fn inv(&self) -> bool {
        wf(self@)
    }

    /// The state before anything was done, for the given plan; `InvParam`
    /// for a plan of more files than the machine can count.
    pub fn new(plan: Stage1Plan) -> (r: Result<Stage1State, MigError>)
        ensures
            match r {
                Ok(s) => s@ == Stage1StateView::initial(plan@) && wf(s@),
                Err(e) => e.spec_kind() == MigErrorKind::InvParam && plan@.copies.len() + 1
                    > usize::MAX,
            },
    {
        if plan.copies.len() == usize::MAX {
            return Err(MigError::from_remark(MigErrorKind::InvParam, "too many files to stage"));
        }
        let s = Stage1State { phase: Stage1Phase::Start, plan, undo: Vec::new(), error: None };
        assert(s@.undo =~= Seq::<UndoStepView>::empty());
        Ok(s)
    }

    /// Where stage 1 stands.
    pub fn phase(&self) -> (r: Stage1Phase)
        ensures
            r == self@.phase,
    {
        self.phase
    }

    /// The kind of the failure, once there is one.
    pub fn error(&self) -> (r: Option<MigErrorKind>)
        ensures
            r == self@.error,
    {
        self.error
    }

    /// The plan that is carried out.
    pub fn plan(&self) -> (r: &Stage1Plan)
        ensures
            r@ == self@.plan,
    {
        &self.plan
    }

    /// The action that is under way in this state.
    pub fn action(&self) -> (a: Stage1Action)
        ensures
            a@ == action_of(self@),
    {
        proof {
            use_type_invariant(self);
        }
        match self.phase {
            Stage1Phase::Start => Stage1Action::Exit,
            Stage1Phase::Staging(i) => if i < self.plan.copies.len() {
                Stage1Action::Copy(self.plan.copies[i].clone())
            } else {
                Stage1Action::Exit
            },
            Stage1Phase::WriteDescriptor => Stage1Action::WriteFile {
                path: self.plan.descriptor_path.clone(),
                text: self.plan.descriptor_text.clone(),
            },
            Stage1Phase::Setup(j) => if j < self.plan.setup.len() {
                Stage1Action::Setup(clone_step(&self.plan.setup[j]))
            } else {
                Stage1Action::Exit
            },
            Stage1Phase::Reboot => Stage1Action::Reboot,
            Stage1Phase::Rollback(k) => if k < self.undo.len() {
                Stage1Action::Undo(self.undo[k].clone())
            } else {
                Stage1Action::Exit
            },
            Stage1Phase::Cleanup(c) => {
                let n = self.plan.copies.len();
                if 1 <= c && c - 1 < n {
                    Stage1Action::Remove { path: self.plan.copies[c - 1].to.clone() }
                } else if 1 <= c && c - 1 == n {
                    Stage1Action::Remove { path: self.plan.descriptor_path.clone() }
                } else {
                    Stage1Action::Exit
                }
            },
            Stage1Phase::Failed => match self.error {
                Some(kind) => Stage1Action::Fail(kind),
                None => Stage1Action::Exit,
            },
            Stage1Phase::Armed => Stage1Action::Exit,
        }
    }

    /// The state that follows this one when its action succeeded (`ok`)
    /// or failed.
    fn step(self, ok: bool) -> (r: Stage1State)
        ensures
            r@ == next_state(self@, ok),
    {
        proof {
            use_type_invariant(&self);
            lemma_next_wf(self@, ok);
        }
        let Stage1State { phase, plan, undo, error } = self;
        let n = plan.copies.len();
        let m = plan.setup.len();
        match phase {
            Stage1Phase::Setup(j) => if !ok {
                let kind = match &plan.setup[j] {
                    SetupStep::Backup { .. } => MigErrorKind::BackupFailed,
                    _ => MigErrorKind::CommitFailed,
                };
                let undo = rollback(&plan.setup, j + 1);
                let then = if undo.len() > 0 {
                    Stage1Phase::Rollback(0)
                } else {
                    cleanup_of(n + 1)
                };
                Stage1State { phase: then, plan, undo, error: Some(kind) }
            } else {
                Stage1State { phase: setup_of(j + 1, m), plan, undo, error }
            },
            Stage1Phase::Reboot => if !ok {
                let undo = rollback(&plan.setup, m);
                let then = if undo.len() > 0 {
                    Stage1Phase::Rollback(0)
                } else {
                    cleanup_of(n + 1)
                };
                Stage1State { phase: then, plan, undo, error: Some(MigErrorKind::CommitFailed) }
            } else {
                Stage1State { phase: Stage1Phase::Armed, plan, undo, error }
            },
            Stage1Phase::Staging(i) => if !ok {
                Stage1State {
                    phase: cleanup_of(i + 1),
                    plan,
                    undo,
                    error: Some(MigErrorKind::IoError),
                }
            } else if i + 1 < n {
                Stage1State { phase: Stage1Phase::Staging(i + 1), plan, undo, error }
            } else {
                Stage1State { phase: Stage1Phase::WriteDescriptor, plan, undo, error }
            },
            Stage1Phase::WriteDescriptor => if !ok {
                Stage1State {
                    phase: cleanup_of(n + 1),
                    plan,
                    undo,
                    error: Some(MigErrorKind::IoError),
                }
            } else {
                Stage1State { phase: setup_of(0, m), plan, undo, error }
            },
            _ => {
                let then = match phase {
                    Stage1Phase::Start => if n > 0 {
                        Stage1Phase::Staging(0)
                    } else {
                        Stage1Phase::WriteDescriptor
                    },
                    Stage1Phase::Rollback(k) => if undo.len() > 0 && k < undo.len() - 1 {
                        Stage1Phase::Rollback(k + 1)
                    } else {
                        cleanup_of(n + 1)
                    },
                    Stage1Phase::Cleanup(c) => if c > 1 {
                        Stage1Phase::Cleanup(c - 1)
                    } else {
                        Stage1Phase::Failed
                    },
                    _ => phase,
                };
                Stage1State { phase: then, plan, undo, error }
            },
        }
    }
}

/// Stage 1 is cancelled after the action of `state` succeeded (`ok`) or
/// failed: the state that follows, and the action to perform next. See
/// `cancelled`.
pub fn cancel(state: Stage1State, ok: bool) -> (r: (Stage1State, Stage1Action))
    ensures
        r.0@ == cancelled(state@, ok),
        r.1@ == action_of(r.0@),
        wf(r.0@),
{
    proof {
        use_type_invariant(&state);
        lemma_next_wf(state@, ok);
    }
    let created = match state.phase {
        Stage1Phase::Start => Some(0),
        Stage1Phase::Staging(i) => Some(i + 1),
        Stage1Phase::WriteDescriptor => Some(state.plan.copies.len() + 1),
        _ => None,
    };
    match created {
        Some(created) => {
            let Stage1State { phase, plan, undo, error } = state;
            let next = Stage1State { phase: cleanup_of(created), plan, undo, error: None };
            let action = next.action();
            (next, action)
        },
        None => migrate(state, ok),
    }
}

/// A copy of a step.
fn clone_step(step: &SetupStep) -> (r: SetupStep)
    ensures
        r@ == step@,
{
    match step {
        SetupStep::Backup { path, to } => SetupStep::Backup { path: path.clone(), to: to.clone() },
        SetupStep::Write { path, text, backup } => SetupStep::Write {
            path: path.clone(),
            text: text.clone(),
            backup: crate::devices::clone_opt(backup),
        },
        SetupStep::Append { path, text, backup } => SetupStep::Append {
            path: path.clone(),
            text: text.clone(),
            backup: crate::devices::clone_opt(backup),
        },
        SetupStep::Run { call } => {
            let mut args: Vec<String> = Vec::new();
            let mut i: usize = 0;
            while i < call.args.len()
                invariant
                    i <= call.args.len(),
                    args.len() == i,
                    forall|j: int| 0 <= j < i ==> (#[trigger] args@[j])@ == call.args@[j]@,
                decreases call.args.len() - i,
            {
                args.push(call.args[i].clone());
                i += 1;
            }
            let copy = crate::ensured_commands::CmdCall {
                program: call.program.clone(),
                args,
                trim_stdout: call.trim_stdout,
            };
            assert(crate::boot_manager::call_view(copy).args =~= crate::boot_manager::call_view(
                *call,
            ).args);
            SetupStep::Run { call: copy }
        },
    }
}

/// One step of stage 1: the state that follows `state` when its action
/// succeeded (`ok`) or failed, and the action to perform next.
///
/// Stage 1 begins in the state `Stage1State::new` of its plan; how the
/// first call is told that nothing was done yet does not matter. It is
/// over when the action is `Exit`, which follows the restart, or `Fail`.
pub fn migrate(state: Stage1State, ok: bool) -> (r: (Stage1State, Stage1Action))
    ensures
        r.0@ == next_state(state@, ok),
        r.1@ == action_of(r.0@),
        wf(r.0@),
{
    let next = state.step(ok);
    let action = next.action();
    proof {
        use_type_invariant(&next);
    }
    (next, action)
}

} // verus!
