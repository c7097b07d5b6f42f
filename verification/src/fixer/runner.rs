//! The check → fix → verify cycle of a single fixer, as a state machine.
//!
//! The machine decides; its driver runs the commands, snapshots and
//! compares modification times, and feeds each outcome back in as an event.
use vstd::prelude::*;

use crate::fixer::report::FixToolStatus;
use crate::registry::fixer_descriptor::FixerStep;
use crate::registry::probe::{build_command, build_error_text, built_words, lemma_command_result};
use crate::text::{
    append_strings, concat, copy_strings, join_strings, joined, opt_chars, owned, views,
};

verus! {

/// Configuration for a single fixer invocation.
pub struct RunnerConfig {
    /// Root directory of the project being fixed.
    pub project_root: String,
    /// Specific files to fix; empty means the whole project.
    pub file_targets: Vec<String>,
    /// When true, only check for issues but do not modify files.
    pub dry_run: bool,
    /// Per-tool timeout in seconds; `None` means no timeout.
    pub timeout_secs: Option<u64>,
    /// Additional arguments appended to both check and fix commands.
    pub extra_args: Vec<String>,
}

/// The `{{files}}` value: the targets joined by spaces, or the project root
/// when there are none (whole-project mode).
pub open spec fn files_arg(targets: Seq<Seq<char>>, root: Seq<char>) -> Seq<char> {
    if targets.len() == 0 {
        root
    } else {
        joined(targets, " "@)
    }
}

/// Builds the `{{files}}` substitution value.
pub fn build_files_arg(file_targets: &[String], project_root: &str) -> (r: String)
    ensures
        r@ == files_arg(views(file_targets@), project_root@),
{
    if file_targets.len() == 0 {
        owned(project_root)
    } else {
        join_strings(file_targets, " ")
    }
}

/// Outcome of a spawned subprocess.
#[derive(Debug, Clone)]
pub enum CommandOutcome {
    /// The process exited with this code (`-1` when killed by a signal).
    Exited(i32),
    /// The process could not be spawned.
    SpawnFailed(String),
    /// The process ran past its timeout.
    Timeout,
}

/// Where a fixer run stands.
#[derive(Debug, Clone, Copy, PartialEq, Eq, Structural)]
pub enum RunnerPhase {
    /// Nothing has run yet.
    Ready,
    /// The check command is running.
    Checking,
    /// The fix command is running.
    Fixing,
    /// The modified files are being collected.
    CollectingChanges,
    /// The check command runs again to verify the fix.
    Verifying,
    /// The run has reported its outcome.
    Done,
}

/// A fixer run in progress.
pub struct FixerRun {
    /// Where the run stands.
    pub phase: RunnerPhase,
    /// The check command template.
    pub check_template: String,
    /// The fix command template.
    pub fix_template: String,
    /// The `{{files}}` value.
    pub files: String,
    /// Arguments appended to both commands.
    pub extra_args: Vec<String>,
    /// Whether files must be left untouched.
    pub dry_run: bool,
    /// The built check command, once built.
    pub check_args: Vec<String>,
    /// The files the fix modified, once collected.
    pub modified: Vec<String>,
}

/// What the driver reports back to the run.
#[derive(Debug, Clone)]
pub enum RunnerEvent {
    /// Begin the run.
    Start,
    /// The last command finished.
    Finished(CommandOutcome),
    /// The files modified since the snapshot.
    Changes(Vec<String>),
}

/// What a fixer run ends with.
#[derive(Debug, Clone)]
pub struct FixOutcome {
    /// Outcome.
    pub status: FixToolStatus,
    /// Files that were modified.
    pub modified_files: Vec<String>,
    /// Error message, if any.
    pub error_msg: Option<String>,
}

/// What the driver must do next.
#[derive(Debug, Clone)]
pub enum RunnerAction {
    /// Run the check command.
    RunCheck(Vec<String>),
    /// Snapshot modification times, then run the fix command.
    SnapshotThenFix(Vec<String>),
    /// Collect the files modified since the snapshot.
    CollectChanges,
    /// Run the check command again.
    RunVerify(Vec<String>),
    /// The run is over with this outcome.
    Report(FixOutcome),
}

/// The state of a run, as plain values.
#[verifier::ext_equal]
pub struct RunView {
    pub phase: RunnerPhase,
    pub check_template: Seq<char>,
    pub fix_template: Seq<char>,
    pub files: Seq<char>,
    pub extra: Seq<Seq<char>>,
    pub dry_run: bool,
    pub check_args: Seq<Seq<char>>,
    pub modified: Seq<Seq<char>>,
}

/// An event, as plain values.
pub enum EventView {
    Start,
    Exited(i32),
    SpawnFailed(Seq<char>),
    Timeout,
    Changes(Seq<Seq<char>>),
}

/// An action, as plain values.
#[verifier::ext_equal]
pub enum ActionView {
    RunCheck(Seq<Seq<char>>),
    SnapshotThenFix(Seq<Seq<char>>),
    CollectChanges,
    RunVerify(Seq<Seq<char>>),
    Report(FixToolStatus, Seq<Seq<char>>, Option<Seq<char>>),
}

impl View for FixerRun {
    type V = RunView;

    open spec fn view(&self) -> RunView {
        RunView {
            phase: self.phase,
            check_template: self.check_template@,
            fix_template: self.fix_template@,
            files: self.files@,
            extra: views(self.extra_args@),
            dry_run: self.dry_run,
            check_args: views(self.check_args@),
            modified: views(self.modified@),
        }
    }
}

impl View for RunnerEvent {
    type V = EventView;

    open spec fn view(&self) -> EventView {
        match self {
            RunnerEvent::Start => EventView::Start,
            RunnerEvent::Finished(CommandOutcome::Exited(c)) => EventView::Exited(*c),
            RunnerEvent::Finished(CommandOutcome::SpawnFailed(m)) => EventView::SpawnFailed(m@),
            RunnerEvent::Finished(CommandOutcome::Timeout) => EventView::Timeout,
            RunnerEvent::Changes(fs) => EventView::Changes(views(fs@)),
        }
    }
}

impl View for RunnerAction {
    type V = ActionView;

    open spec fn view(&self) -> ActionView {
        match self {
            RunnerAction::RunCheck(a) => ActionView::RunCheck(views(a@)),
            RunnerAction::SnapshotThenFix(a) => ActionView::SnapshotThenFix(views(a@)),
            RunnerAction::CollectChanges => ActionView::CollectChanges,
            RunnerAction::RunVerify(a) => ActionView::RunVerify(views(a@)),
            RunnerAction::Report(o) => ActionView::Report(
                o.status,
                views(o.modified_files@),
                opt_chars(o.error_msg),
            ),
        }
    }
}

/// Whether `e` is the kind of event a run in `phase` waits for.
pub open spec fn expects(phase: RunnerPhase, e: EventView) -> bool {
    match phase {
        RunnerPhase::Ready => e is Start,
        RunnerPhase::Checking | RunnerPhase::Fixing | RunnerPhase::Verifying => e is Exited
            || e is SpawnFailed || e is Timeout,
        RunnerPhase::CollectingChanges => e is Changes,
        RunnerPhase::Done => false,
    }
}

/// The variables substituted into both templates.
pub open spec fn files_vars(files: Seq<char>) -> Seq<(Seq<char>, Seq<char>)> {
    seq![("files"@, files)]
}

/// The run, finished.
pub open spec fn finished(r: RunView) -> RunView {
    RunView { phase: RunnerPhase::Done, ..r }
}

/// A report with no modified files.
pub open spec fn report(status: FixToolStatus, error: Option<Seq<char>>) -> ActionView {
    ActionView::Report(status, Seq::empty(), error)
}

/// One step of the check → fix → verify cycle: the next state and what to
/// do. The check command failing to build, to spawn or to finish in time
/// skips the tool; a clean check means no issues; a dry run stops before
/// the fix; a fix command that fails to build or spawn fails the tool;
/// otherwise the fix is verified by re-running the check: clean means
/// fixed, anything else attempted.
pub open spec fn next(r: RunView, e: EventView) -> (RunView, ActionView) {
    match r.phase {
        RunnerPhase::Ready => match built_words(r.check_template, files_vars(r.files)) {
            None => (
                finished(r),
                report(
                    FixToolStatus::Skipped,
                    Some("invalid check command: "@ + build_error_text(r.check_template)),
                ),
            ),
            Some(ws) => (
                RunView { phase: RunnerPhase::Checking, check_args: ws + r.extra, ..r },
                ActionView::RunCheck(ws + r.extra),
            ),
        },
        RunnerPhase::Checking => match e {
            EventView::SpawnFailed(m) => (
                finished(r),
                report(FixToolStatus::Skipped, Some("tool unavailable: "@ + m)),
            ),
            EventView::Exited(code) => if code == 0 {
                (finished(r), report(FixToolStatus::NoIssues, None))
            } else if r.dry_run {
                (finished(r), report(FixToolStatus::DryRunWouldFix, None))
            } else {
                match built_words(r.fix_template, files_vars(r.files)) {
                    None => (
                        finished(r),
                        report(
                            FixToolStatus::Failed,
                            Some("invalid fix command: "@ + build_error_text(r.fix_template)),
                        ),
                    ),
                    Some(ws) => (
                        RunView { phase: RunnerPhase::Fixing, ..r },
                        ActionView::SnapshotThenFix(ws + r.extra),
                    ),
                }
            },
            _ => (
                finished(r),
                report(FixToolStatus::Skipped, Some("check command timed out"@)),
            ),
        },
        RunnerPhase::Fixing => match e {
            EventView::SpawnFailed(m) => (finished(r), report(FixToolStatus::Failed, Some(m))),
            _ => (RunView { phase: RunnerPhase::CollectingChanges, ..r }, ActionView::CollectChanges),
        },
        RunnerPhase::CollectingChanges => match e {
            EventView::Changes(fs) => (
                RunView { phase: RunnerPhase::Verifying, modified: fs, ..r },
                ActionView::RunVerify(r.check_args),
            ),
            _ => (r, ActionView::CollectChanges),
        },
        RunnerPhase::Verifying => match e {
            EventView::Exited(code) => if code == 0 {
                (finished(r), ActionView::Report(FixToolStatus::Fixed, r.modified, None))
            } else {
                (finished(r), ActionView::Report(FixToolStatus::Attempted, r.modified, None))
            },
            _ => (finished(r), ActionView::Report(FixToolStatus::Attempted, r.modified, None)),
        },
        RunnerPhase::Done => (r, ActionView::CollectChanges),
    }
}

/// The state a run of `step` under `config` starts in.
pub open spec fn start_view(step: FixerStep, config: RunnerConfig) -> RunView {
    RunView {
        phase: RunnerPhase::Ready,
        check_template: step.check@,
        fix_template: step.fix@,
        files: files_arg(views(config.file_targets@), config.project_root@),
        extra: views(config.extra_args@),
        dry_run: config.dry_run,
        check_args: Seq::empty(),
        modified: Seq::empty(),
    }
}

/// What holds of every state a dry run can reach: it never gets past the
/// check.
pub open spec fn dry_run_safe(r: RunView) -> bool {
    r.dry_run ==> (r.phase == RunnerPhase::Ready || r.phase == RunnerPhase::Checking || r.phase
        == RunnerPhase::Done)
}

/// A dry run never modifies files: it starts in a safe state, every step
/// keeps it safe, and no step asks for the fix command to run.
pub proof fn lemma_dry_run_never_fixes(r: RunView, e: EventView)
    requires
        dry_run_safe(r),
        expects(r.phase, e),
    ensures
        dry_run_safe(next(r, e).0),
        r.dry_run ==> !(next(r, e).1 is SnapshotThenFix),
        next(r, e).0.dry_run == r.dry_run,
{
}

/// Every run starts in a safe state.
pub proof fn lemma_start_is_safe(step: FixerStep, config: RunnerConfig)
    ensures
        dry_run_safe(start_view(step, config)),
{
}

/// How far a run has got: each phase comes after the one before it.
pub open spec fn phase_rank(p: RunnerPhase) -> int {
    match p {
        RunnerPhase::Ready => 0,
        RunnerPhase::Checking => 1,
        RunnerPhase::Fixing => 2,
        RunnerPhase::CollectingChanges => 3,
        RunnerPhase::Verifying => 4,
        RunnerPhase::Done => 5,
    }
}

/// Every step a run accepts moves it to a later phase, so a run is over
/// after at most five steps; a step ends the run exactly when it reports
/// the outcome.
pub proof fn lemma_runs_progress(r: RunView, e: EventView)
    requires
        expects(r.phase, e),
    ensures
        phase_rank(next(r, e).0.phase) > phase_rank(r.phase),
        (next(r, e).0.phase == RunnerPhase::Done) == (next(r, e).1 is Report),
{
}

/// The full cycle for a tool whose commands both build: the check finds
/// issues, the fix runs and the check runs again; the run reports the
/// files the fix modified, as fixed when the second check is clean and as
/// attempted otherwise, and it has then finished.
pub proof fn lemma_full_cycle(
    r: RunView,
    check_code: i32,
    fix: EventView,
    changes: Seq<Seq<char>>,
    verify: EventView,
)
    requires
        r.phase == RunnerPhase::Ready,
        !r.dry_run,
        built_words(r.check_template, files_vars(r.files)) is Some,
        built_words(r.fix_template, files_vars(r.files)) is Some,
        check_code != 0,
        fix is Exited || fix is Timeout,
        expects(RunnerPhase::Verifying, verify),
    ensures
        ({
            let s1 = next(r, EventView::Start);
            let s2 = next(s1.0, EventView::Exited(check_code));
            let s3 = next(s2.0, fix);
            let s4 = next(s3.0, EventView::Changes(changes));
            let s5 = next(s4.0, verify);
            &&& s1.1 is RunCheck
            &&& s2.1 is SnapshotThenFix
            &&& s3.1 is CollectChanges
            &&& s4.1 == ActionView::RunVerify(s1.0.check_args)
            &&& s5.1 == ActionView::Report(
                if verify == EventView::Exited(0) {
                    FixToolStatus::Fixed
                } else {
                    FixToolStatus::Attempted
                },
                changes,
                None,
            )
            &&& s5.0.phase == RunnerPhase::Done
        }),
{
}

fn done_with(status: FixToolStatus, error_msg: Option<String>) -> (a: RunnerAction)
    ensures
        a@ == report(status, opt_chars(error_msg)),
{
    let out = FixOutcome { status, modified_files: Vec::new(), error_msg };
    let a = RunnerAction::Report(out);
    assert(views(Seq::<String>::empty()) =~= Seq::<Seq<char>>::empty());
    a
}

/// Builds a command template with `{{files}}` filled in and the extra
/// arguments appended, or the message of the build error.
fn build_with_files(template: &str, files: &str, extra: &Vec<String>) -> (r: Result<
    Vec<String>,
    String,
>)
    ensures
        match r {
            Ok(v) => built_words(template@, files_vars(files@)) matches Some(ws) && views(v@) == ws
                + views(extra@),
            Err(m) => built_words(template@, files_vars(files@)) is None && m@ == build_error_text(
                template@,
            ),
        },
{
    let vars: [(&str, &str); 1] = [("files", files)];
    let built = build_command(template, vars.as_slice());
    proof {
        reveal_strlit("files");
        assert(crate::registry::probe::var_views(vars@) =~= files_vars(files@));
        lemma_command_result(template@, files_vars(files@), built);
    }
    match built {
        Ok(mut v) => {
            append_strings(&mut v, extra.as_slice());
            Ok(v)
        },
        Err(e) => Err(e.message()),
    }
}

impl FixerRun {
    /// A run of `step` under `config`, not started yet.
    pub fn new(step: &FixerStep, config: &RunnerConfig) -> (r: Self)
        ensures
            r@ == start_view(*step, *config),
    {
        let r = FixerRun {
            phase: RunnerPhase::Ready,
            check_template: step.check.clone(),
            fix_template: step.fix.clone(),
            files: build_files_arg(config.file_targets.as_slice(), config.project_root.as_str()),
            extra_args: copy_strings(&config.extra_args),
            dry_run: config.dry_run,
            check_args: Vec::new(),
            modified: Vec::new(),
        };
        assert(views(Seq::<String>::empty()) =~= Seq::<Seq<char>>::empty());
        r
    }

    /// Whether the run has reported its outcome.
    pub fn is_done(&self) -> (b: bool)
        ensures
            b == (self.phase == RunnerPhase::Done),
    {
        self.phase == RunnerPhase::Done
    }

    /// Takes one step: consumes the event the run waits for and says what
    /// the driver must do next.
    pub fn advance(&mut self, event: RunnerEvent) -> (a: RunnerAction)
        requires
            expects(old(self).phase, event@),
        ensures
            (final(self)@, a@) == next(old(self)@, event@),
    {
        match self.phase {
            RunnerPhase::Ready => {
                match build_with_files(self.check_template.as_str(), self.files.as_str(), &self.extra_args) {
                    Ok(args) => {
                        self.check_args = copy_strings(&args);
                        self.phase = RunnerPhase::Checking;
                        RunnerAction::RunCheck(args)
                    },
                    Err(m) => {
                        self.phase = RunnerPhase::Done;
                        done_with(
                            FixToolStatus::Skipped,
                            Some(concat("invalid check command: ", m.as_str())),
                        )
                    },
                }
            },
            RunnerPhase::Checking => {
                match event {
                    RunnerEvent::Finished(CommandOutcome::SpawnFailed(reason)) => {
                        self.phase = RunnerPhase::Done;
                        done_with(
                            FixToolStatus::Skipped,
                            Some(concat("tool unavailable: ", reason.as_str())),
                        )
                    },
                    RunnerEvent::Finished(CommandOutcome::Exited(code)) => {
                        if code == 0 {
                            self.phase = RunnerPhase::Done;
                            done_with(FixToolStatus::NoIssues, None)
                        } else if self.dry_run {
                            self.phase = RunnerPhase::Done;
                            done_with(FixToolStatus::DryRunWouldFix, None)
                        } else {
                            match build_with_files(
                                self.fix_template.as_str(),
                                self.files.as_str(),
                                &self.extra_args,
                            ) {
                                Ok(args) => {
                                    self.phase = RunnerPhase::Fixing;
                                    RunnerAction::SnapshotThenFix(args)
                                },
                                Err(m) => {
                                    self.phase = RunnerPhase::Done;
                                    done_with(
                                        FixToolStatus::Failed,
                                        Some(concat("invalid fix command: ", m.as_str())),
                                    )
                                },
                            }
                        }
                    },
                    _ => {
                        self.phase = RunnerPhase::Done;
                        done_with(FixToolStatus::Skipped, Some(owned("check command timed out")))
                    },
                }
            },
            RunnerPhase::Fixing => {
                match event {
                    RunnerEvent::Finished(CommandOutcome::SpawnFailed(reason)) => {
                        self.phase = RunnerPhase::Done;
                        done_with(FixToolStatus::Failed, Some(reason))
                    },
                    _ => {
                        self.phase = RunnerPhase::CollectingChanges;
                        RunnerAction::CollectChanges
                    },
                }
            },
            RunnerPhase::CollectingChanges => {
                match event {
                    RunnerEvent::Changes(files) => {
                        self.modified = files;
                        self.phase = RunnerPhase::Verifying;
                        RunnerAction::RunVerify(copy_strings(&self.check_args))
                    },
                    _ => RunnerAction::CollectChanges,
                }
            },
            RunnerPhase::Verifying => {
                let status = match event {
                    RunnerEvent::Finished(CommandOutcome::Exited(code)) => if code == 0 {
                        FixToolStatus::Fixed
                    } else {
                        FixToolStatus::Attempted
                    },
                    _ => FixToolStatus::Attempted,
                };
                self.phase = RunnerPhase::Done;
                RunnerAction::Report(
                    FixOutcome {
                        status,
                        modified_files: copy_strings(&self.modified),
                        error_msg: None,
                    },
                )
            },
            RunnerPhase::Done => RunnerAction::CollectChanges,
        }
    }
}

} // verus!
