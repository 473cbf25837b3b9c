//! The phased check-then-remediate workflow over a set of targets.
//!
//! The workflow is a state machine. The caller launches the batch that an
//! [`Action`] names, waits until every task of the batch has joined, and hands
//! the outcomes back through [`Orchestrator::joined`]. Nothing is decided
//! before a whole phase has joined, and a failing task never hides the result
//! of another.

use crate::executor::normal_exit_code;
use crate::executor::CommandDescriptor;
use crate::executor::CommandLine;
use crate::executor::ProcessReport;
use crate::targets::all_targets;
use crate::targets::check_command;
use crate::targets::check_target;
use crate::targets::command_line;
use crate::targets::config_text;
use crate::targets::every_target;
use crate::targets::fix_command;
use crate::targets::format_target;
use crate::targets::name_of;
use crate::targets::parse_selection;
use crate::targets::selection_named;
use crate::targets::target_name;
use crate::targets::Selection;
use crate::targets::Target;
use crate::targets::TargetError;
use vstd::prelude::*;

verus! {

/// How one task of a phase ended.
#[derive(Clone, Copy, Debug, PartialEq, Eq)]
pub enum TaskOutcome {
    /// The command ran to completion with this exit code.
    Exited(i32),
    /// The command could not be run, or its task did not join.
    Errored,
}

/// The status of one target in one phase.
#[derive(Clone, Copy, Debug, PartialEq, Eq)]
pub enum TargetStatus {
    Passed,
    Failed,
    ExecutionError,
}

/// The two phases of a run.
#[derive(Clone, Copy, Debug, PartialEq, Eq)]
pub enum Phase {
    Check,
    Remediate,
}

/// Whether one named target is run on its own or a set is run concurrently.
#[derive(Clone, Copy, Debug, PartialEq, Eq)]
pub enum Mode {
    Single,
    Batch,
}

/// What a run is waiting for.
#[derive(Clone, Copy, Debug, PartialEq, Eq)]
pub enum Stage {
    Checking,
    Remediating,
    Finished,
}

/// One wave of commands: all are launched before any is awaited, and all are
/// awaited before the outcomes are handed back.
#[derive(Clone, Debug, PartialEq, Eq)]
pub struct Batch {
    pub phase: Phase,
    pub targets: Vec<Target>,
    pub capture_output: bool,
}

/// The result of a whole run.
#[derive(Clone, Debug, PartialEq, Eq)]
pub struct OrchestrationOutcome {
    /// The status of every target after the check phase, in target order.
    pub checked: Vec<(Target, TargetStatus)>,
    /// The status of every remediated target, in target order.
    pub remediated: Vec<(Target, TargetStatus)>,
    /// How many targets are left failing.
    pub failed_count: usize,
    pub success: bool,
}

/// What the caller does next.
#[derive(Clone, Debug, PartialEq, Eq)]
pub enum Action {
    Launch(Batch),
    Conclude(OrchestrationOutcome),
    /// The run had already finished; the outcomes were ignored.
    Nothing,
}

/// The state of a run between two phases.
#[derive(Clone, Debug, PartialEq, Eq)]
pub struct Orchestrator {
    pub mode: Mode,
    pub stage: Stage,
    pub targets: Vec<Target>,
    pub checked: Vec<(Target, TargetStatus)>,
    pub pending: Vec<Target>,
}

/// What a [`Batch`] holds.
pub ghost struct BatchModel {
    pub phase: Phase,
    pub targets: Seq<Target>,
    pub capture_output: bool,
}

/// What an [`OrchestrationOutcome`] holds.
pub ghost struct OutcomeModel {
    pub checked: Seq<(Target, TargetStatus)>,
    pub remediated: Seq<(Target, TargetStatus)>,
    pub failed_count: nat,
    pub success: bool,
}

/// What an [`Action`] holds.
pub ghost enum ActionModel {
    Launch(BatchModel),
    Conclude(OutcomeModel),
    Nothing,
}

/// What an [`Orchestrator`] holds.
pub ghost struct OrchestratorModel {
    pub mode: Mode,
    pub stage: Stage,
    pub targets: Seq<Target>,
    pub checked: Seq<(Target, TargetStatus)>,
    pub pending: Seq<Target>,
}

impl View for Batch {
    type V = BatchModel;

    open spec fn view(&self) -> BatchModel {
        BatchModel { phase: self.phase, targets: self.targets@, capture_output: self.capture_output }
    }
}

impl View for OrchestrationOutcome {
    type V = OutcomeModel;

    open spec fn view(&self) -> OutcomeModel {
        OutcomeModel {
            checked: self.checked@,
            remediated: self.remediated@,
            failed_count: self.failed_count as nat,
            success: self.success,
        }
    }
}

impl View for Action {
    type V = ActionModel;

    open spec fn view(&self) -> ActionModel {
        match self {
            Action::Launch(batch) => ActionModel::Launch(batch@),
            Action::Conclude(outcome) => ActionModel::Conclude(outcome@),
            Action::Nothing => ActionModel::Nothing,
        }
    }
}

impl View for Orchestrator {
    type V = OrchestratorModel;

    open spec fn view(&self) -> OrchestratorModel {
        OrchestratorModel {
            mode: self.mode,
            stage: self.stage,
            targets: self.targets@,
            checked: self.checked@,
            pending: self.pending@,
        }
    }
}

/// A target passes a phase exactly when its command exits with code 0.
pub open spec fn status_of(outcome: TaskOutcome) -> TargetStatus {
    match outcome {
        TaskOutcome::Exited(code) => if code == 0 {
            TargetStatus::Passed
        } else {
            TargetStatus::Failed
        },
        TaskOutcome::Errored => TargetStatus::ExecutionError,
    }
}

/// The outcome of the task at `index`. A task without an outcome did not join.
pub open spec fn outcome_at(outcomes: Seq<TaskOutcome>, index: int) -> TaskOutcome {
    if 0 <= index < outcomes.len() {
        outcomes[index]
    } else {
        TaskOutcome::Errored
    }
}

/// Every target with the status that its own task earned.
pub open spec fn statuses(targets: Seq<Target>, outcomes: Seq<TaskOutcome>) -> Seq<
    (Target, TargetStatus),
> {
    Seq::new(targets.len(), |i: int| (targets[i], status_of(outcome_at(outcomes, i))))
}

/// The targets that did not pass, in the order in which they were run.
pub open spec fn unsettled(results: Seq<(Target, TargetStatus)>) -> Seq<Target>
    decreases results.len(),
{
    if results.len() == 0 {
        Seq::empty()
    } else if results.last().1 is Passed {
        unsettled(results.drop_last())
    } else {
        unsettled(results.drop_last()).push(results.last().0)
    }
}

/// Output is captured when more than one target runs at a time.
pub open spec fn captures_output(mode: Mode, targets: Seq<Target>) -> bool {
    mode is Batch && targets.len() > 1
}

/// How what a target argument selects is run.
pub open spec fn selected_mode(selection: Selection) -> Mode {
    match selection {
        Selection::All => Mode::Batch,
        Selection::Single(_) => Mode::Single,
    }
}

/// The targets that a target argument selects.
pub open spec fn selected_targets(selection: Selection) -> Seq<Target> {
    match selection {
        Selection::All => every_target(),
        Selection::Single(target) => seq![target],
    }
}

/// The state in which a run starts, waiting for the check phase to join.
pub open spec fn initial_state(mode: Mode, targets: Seq<Target>) -> OrchestratorModel {
    OrchestratorModel {
        mode,
        stage: Stage::Checking,
        targets,
        checked: Seq::empty(),
        pending: Seq::empty(),
    }
}

/// The batch that a run starts with: the check of every target.
pub open spec fn initial_batch(mode: Mode, targets: Seq<Target>) -> BatchModel {
    BatchModel { phase: Phase::Check, targets, capture_output: captures_output(mode, targets) }
}

/// The outcome of a run that ends after the check phase.
pub open spec fn outcome_without_remediation(
    checked: Seq<(Target, TargetStatus)>,
    failed: nat,
) -> OutcomeModel {
    OutcomeModel { checked, remediated: Seq::empty(), failed_count: failed, success: failed == 0 }
}

/// The outcome of a run whose remediation phase has joined.
pub open spec fn outcome_after_remediation(
    checked: Seq<(Target, TargetStatus)>,
    remediated: Seq<(Target, TargetStatus)>,
) -> OutcomeModel {
    OutcomeModel {
        checked,
        remediated,
        failed_count: unsettled(remediated).len(),
        success: unsettled(remediated).len() == 0,
    }
}

/// A single target whose check could not be run is not remediated: the run
/// ends in failure at once.
pub open spec fn check_aborts(mode: Mode, checked: Seq<(Target, TargetStatus)>) -> bool {
    mode is Single && exists|i: int| 0 <= i < checked.len() && (#[trigger] checked[i]).1 is ExecutionError
}

/// The state with the run finished.
pub open spec fn finished(state: OrchestratorModel) -> OrchestratorModel {
    OrchestratorModel { stage: Stage::Finished, ..state }
}

/// The transition that the outcomes of the phase in flight cause.
pub open spec fn step(state: OrchestratorModel, outcomes: Seq<TaskOutcome>) -> (
    OrchestratorModel,
    ActionModel,
) {
    match state.stage {
        Stage::Checking => {
            let checked = statuses(state.targets, outcomes);
            let pending = unsettled(checked);
            if check_aborts(state.mode, checked) {
                (
                    OrchestratorModel { stage: Stage::Finished, checked, ..state },
                    ActionModel::Conclude(outcome_without_remediation(checked, pending.len())),
                )
            } else if pending.len() == 0 {
                (
                    OrchestratorModel { stage: Stage::Finished, checked, ..state },
                    ActionModel::Conclude(outcome_without_remediation(checked, 0)),
                )
            } else {
                (
                    OrchestratorModel { stage: Stage::Remediating, checked, pending, ..state },
                    ActionModel::Launch(
                        BatchModel {
                            phase: Phase::Remediate,
                            targets: pending,
                            capture_output: captures_output(state.mode, state.targets),
                        },
                    ),
                )
            }
        },
        Stage::Remediating => (
            finished(state),
            ActionModel::Conclude(
                outcome_after_remediation(state.checked, statuses(state.pending, outcomes)),
            ),
        ),
        Stage::Finished => (state, ActionModel::Nothing),
    }
}

/// What holds of every state that a run passes through: before the checks
/// have joined nothing is recorded; afterwards every target has its status,
/// and what is pending is exactly what did not pass. A run never waits for a
/// remediation phase that has nothing to remediate.
pub open spec fn consistent(state: OrchestratorModel) -> bool {
    match state.stage {
        Stage::Checking => state.checked.len() == 0 && state.pending.len() == 0,
        Stage::Remediating => {
            &&& state.checked.len() == state.targets.len()
            &&& state.pending == unsettled(state.checked)
            &&& state.pending.len() > 0
        },
        Stage::Finished => true,
    }
}

/// A run starts in a consistent state, and no outcomes, however many or few,
/// lead it out of the consistent states. Every phase is launched with the
/// targets that are pending, and the run concludes only from a state in which
/// a phase was in flight.
pub proof fn step_keeps_consistency(state: OrchestratorModel, outcomes: Seq<TaskOutcome>)
    requires
        consistent(state),
    ensures
        consistent(initial_state(state.mode, state.targets)),
        consistent(step(state, outcomes).0),
        step(state, outcomes).0.targets == state.targets,
        step(state, outcomes).0.mode == state.mode,
        step(state, outcomes).1 matches ActionModel::Launch(batch) ==> state.stage is Checking
            && batch.phase is Remediate && batch.targets == step(state, outcomes).0.pending,
        step(state, outcomes).1 is Conclude ==> !(state.stage is Finished) && step(
            state,
            outcomes,
        ).0.stage is Finished,
        step(state, outcomes).1 is Nothing <==> state.stage is Finished,
{
}

/// A whole run against commands whose outcomes are known.
pub ghost struct RunModel {
    pub outcome: OutcomeModel,
    /// The targets whose fix command was invoked, in order.
    pub fixes: Seq<Target>,
}

/// The run in which the check of each target ends as `check` says and the fix
/// of each target as `fix` says.
pub open spec fn run_phased(
    mode: Mode,
    targets: Seq<Target>,
    check: spec_fn(Target) -> TaskOutcome,
    fix: spec_fn(Target) -> TaskOutcome,
) -> RunModel {
    let (checked, first) = step(initial_state(mode, targets), targets.map_values(check));
    match first {
        ActionModel::Launch(batch) => RunModel {
            outcome: step(checked, batch.targets.map_values(fix)).1->Conclude_0,
            fixes: batch.targets,
        },
        ActionModel::Conclude(outcome) => RunModel { outcome, fixes: Seq::empty() },
        ActionModel::Nothing => RunModel {
            outcome: outcome_without_remediation(Seq::empty(), 0),
            fixes: Seq::empty(),
        },
    }
}

/// Results that all passed leave nothing to remediate.
pub proof fn passed_results_are_settled(results: Seq<(Target, TargetStatus)>)
    requires
        forall|i: int| 0 <= i < results.len() ==> (#[trigger] results[i]).1 is Passed,
    ensures
        unsettled(results) == Seq::<Target>::empty(),
    decreases results.len(),
{
    if results.len() > 0 {
        passed_results_are_settled(results.drop_last());
    }
}

/// A target is remediated exactly when its own check did not pass.
pub proof fn unsettled_holds_the_targets_that_did_not_pass(
    results: Seq<(Target, TargetStatus)>,
    target: Target,
)
    ensures
        unsettled(results).contains(target) <==> exists|i: int|
            0 <= i < results.len() && (#[trigger] results[i]).0 == target && !(results[i].1 is Passed),
    decreases results.len(),
{
    if results.len() > 0 {
        let front = results.drop_last();
        unsettled_holds_the_targets_that_did_not_pass(front, target);
        if unsettled(results).contains(target) {
            if unsettled(front).contains(target) {
                let i: int = choose|i: int|
                    0 <= i < front.len() && (#[trigger] front[i]).0 == target && !(front[i].1 is Passed);
                assert(results[i] == front[i]);
            } else {
                let k: int = choose|k: int| 0 <= k < unsettled(results).len() && unsettled(results)[k] == target;
                assert(!(results.last().1 is Passed));
                assert(k == unsettled(front).len());
                assert(results[results.len() - 1].0 == target);
            }
        }
        if exists|i: int|
            0 <= i < results.len() && (#[trigger] results[i]).0 == target && !(results[i].1 is Passed) {
            let i: int = choose|i: int|
                0 <= i < results.len() && (#[trigger] results[i]).0 == target && !(results[i].1 is Passed);
            if i < front.len() {
                assert(front[i] == results[i]);
                assert(unsettled(front).contains(target));
                let k: int = choose|k: int| 0 <= k < unsettled(front).len() && unsettled(front)[k] == target;
                assert(unsettled(results)[k] == target);
            } else {
                assert(unsettled(results).last() == target);
            }
        }
    }
}

/// One target whose check exits with a code other than 0 and whose fix
/// succeeds: the run succeeds, and the fix is invoked exactly once, for that
/// target. This holds whether the target runs on its own or as a batch of one.
pub proof fn failing_check_and_succeeding_fix_remediate_once(
    mode: Mode,
    target: Target,
    check: spec_fn(Target) -> TaskOutcome,
    fix: spec_fn(Target) -> TaskOutcome,
)
    requires
        check(target) matches TaskOutcome::Exited(code) && code != 0,
        fix(target) == TaskOutcome::Exited(0),
    ensures
        run_phased(mode, seq![target], check, fix).outcome.success,
        run_phased(mode, seq![target], check, fix).outcome.failed_count == 0,
        run_phased(mode, seq![target], check, fix).fixes == seq![target],
        run_phased(mode, seq![target], check, fix).outcome.remediated == seq![
            (target, TargetStatus::Passed),
        ],
{
    let targets = seq![target];
    let checked = statuses(targets, targets.map_values(check));
    assert(checked =~= seq![(target, TargetStatus::Failed)]);
    assert(checked.drop_last() =~= Seq::<(Target, TargetStatus)>::empty());
    assert(unsettled(checked.drop_last()) =~= Seq::<Target>::empty());
    assert(unsettled(checked) =~= seq![target]);
    assert(!check_aborts(mode, checked));
    let fixed = statuses(targets, targets.map_values(fix));
    assert(fixed =~= seq![(target, TargetStatus::Passed)]);
    passed_results_are_settled(fixed);
}

/// In a batch, every target whose check did not pass is remediated, whatever
/// made it fail, and no other target is. If each of their fixes succeeds, the
/// run succeeds.
pub proof fn batch_remediates_exactly_the_failing_targets(
    targets: Seq<Target>,
    check: spec_fn(Target) -> TaskOutcome,
    fix: spec_fn(Target) -> TaskOutcome,
)
    requires
        forall|i: int|
            0 <= i < targets.len() && !(status_of(check(#[trigger] targets[i])) is Passed) ==> fix(
                targets[i],
            ) == TaskOutcome::Exited(0),
    ensures
        run_phased(Mode::Batch, targets, check, fix).outcome.success,
        run_phased(Mode::Batch, targets, check, fix).outcome.checked == statuses(
            targets,
            targets.map_values(check),
        ),
        run_phased(Mode::Batch, targets, check, fix).fixes == unsettled(
            statuses(targets, targets.map_values(check)),
        ),
        forall|target: Target|
            run_phased(Mode::Batch, targets, check, fix).fixes.contains(target) <==> exists|i: int|
                0 <= i < targets.len() && #[trigger] targets[i] == target && !(status_of(
                    check(target),
                ) is Passed),
{
    let checked = statuses(targets, targets.map_values(check));
    let pending = unsettled(checked);
    assert forall|target: Target|
        pending.contains(target) <==> exists|i: int|
            0 <= i < targets.len() && #[trigger] targets[i] == target && !(status_of(check(target)) is Passed) by {
        unsettled_holds_the_targets_that_did_not_pass(checked, target);
        if pending.contains(target) {
            let i: int = choose|i: int|
                0 <= i < checked.len() && (#[trigger] checked[i]).0 == target && !(checked[i].1 is Passed);
            assert(targets[i] == target);
        }
        if exists|i: int|
            0 <= i < targets.len() && #[trigger] targets[i] == target && !(status_of(check(target)) is Passed) {
            let i: int = choose|i: int|
                0 <= i < targets.len() && #[trigger] targets[i] == target && !(status_of(check(target)) is Passed);
            assert(checked[i].0 == target && !(checked[i].1 is Passed));
        }
    }
    if pending.len() > 0 {
        let fixed = statuses(pending, pending.map_values(fix));
        assert forall|k: int| 0 <= k < fixed.len() implies (#[trigger] fixed[k]).1 is Passed by {
            assert(pending.contains(pending[k]));
            let i: int = choose|i: int|
                0 <= i < targets.len() && #[trigger] targets[i] == pending[k] && !(status_of(
                    check(pending[k]),
                ) is Passed);
            assert(fix(targets[i]) == TaskOutcome::Exited(0));
        }
        passed_results_are_settled(fixed);
    } else {
        assert(pending =~= Seq::<Target>::empty());
    }
    assert(run_phased(Mode::Batch, targets, check, fix).fixes == pending);
}

/// A run fails exactly when a target is left failing: a fix that did not
/// pass, or the check of a single target that could not be run. The verdict
/// looks at each target on its own, so the order in which the tasks of a
/// phase end plays no part in it.
pub proof fn run_fails_exactly_when_a_target_is_left_failing(
    mode: Mode,
    targets: Seq<Target>,
    check: spec_fn(Target) -> TaskOutcome,
    fix: spec_fn(Target) -> TaskOutcome,
)
    ensures
        ({
            let run = run_phased(mode, targets, check, fix);
            let checked = statuses(targets, targets.map_values(check));
            &&& run.outcome.checked == checked
            &&& run.outcome.success == (run.outcome.failed_count == 0)
            &&& run.outcome.remediated.len() == run.fixes.len()
            &&& !run.outcome.success <==> check_aborts(mode, checked) || exists|i: int|
                0 <= i < run.fixes.len() && !(status_of(fix(#[trigger] run.fixes[i])) is Passed)
        }),
{
    let run = run_phased(mode, targets, check, fix);
    let checked = statuses(targets, targets.map_values(check));
    let pending = unsettled(checked);
    if check_aborts(mode, checked) {
        let i: int = choose|i: int| 0 <= i < checked.len() && (#[trigger] checked[i]).1 is ExecutionError;
        unsettled_holds_the_targets_that_did_not_pass(checked, checked[i].0);
        assert(pending.contains(checked[i].0));
    } else if pending.len() > 0 {
        let fixed = statuses(pending, pending.map_values(fix));
        if unsettled(fixed).len() == 0 {
            assert forall|i: int| 0 <= i < pending.len() implies status_of(
                fix(#[trigger] pending[i]),
            ) is Passed by {
                if !(fixed[i].1 is Passed) {
                    unsettled_holds_the_targets_that_did_not_pass(fixed, fixed[i].0);
                    assert(unsettled(fixed).contains(fixed[i].0));
                }
            }
        } else {
            let target = unsettled(fixed)[0];
            assert(unsettled(fixed).contains(target));
            unsettled_holds_the_targets_that_did_not_pass(fixed, target);
            let i: int = choose|i: int|
                0 <= i < fixed.len() && (#[trigger] fixed[i]).0 == target && !(fixed[i].1 is Passed);
            assert(!(status_of(fix(pending[i])) is Passed));
        }
    }
}

/// Where every check passes, no fix is invoked and the run succeeds.
pub proof fn passing_checks_need_no_remediation(
    mode: Mode,
    targets: Seq<Target>,
    check: spec_fn(Target) -> TaskOutcome,
    fix: spec_fn(Target) -> TaskOutcome,
)
    requires
        forall|i: int| 0 <= i < targets.len() ==> check(#[trigger] targets[i]) == TaskOutcome::Exited(0),
    ensures
        run_phased(mode, targets, check, fix).outcome.success,
        run_phased(mode, targets, check, fix).outcome.failed_count == 0,
        run_phased(mode, targets, check, fix).fixes.len() == 0,
        run_phased(mode, targets, check, fix).outcome.remediated.len() == 0,
{
    let checked = statuses(targets, targets.map_values(check));
    assert forall|i: int| 0 <= i < checked.len() implies (#[trigger] checked[i]).1 is Passed by {
        assert(check(targets[i]) == TaskOutcome::Exited(0));
    }
    passed_results_are_settled(checked);
}

/// A task that cannot be run takes no other task's result away: every target
/// of the batch is still reported, each sibling with the status that its own
/// outcome earns, and the batch is never cut short.
pub proof fn failed_task_leaves_siblings_reported(
    targets: Seq<Target>,
    outcomes: Seq<TaskOutcome>,
    failing: int,
)
    requires
        outcomes.len() == targets.len(),
        0 <= failing < targets.len(),
    ensures
        statuses(targets, outcomes.update(failing, TaskOutcome::Errored)).len() == targets.len(),
        forall|i: int|
            0 <= i < targets.len() && i != failing ==> #[trigger] statuses(
                targets,
                outcomes.update(failing, TaskOutcome::Errored),
            )[i] == (targets[i], status_of(outcome_at(outcomes, i))),
        step(
            initial_state(Mode::Batch, targets),
            outcomes.update(failing, TaskOutcome::Errored),
        ).0.checked == statuses(targets, outcomes.update(failing, TaskOutcome::Errored)),
{
}

/// How a task ended, given what the operating system reported of its
/// command: a command that ran to its end gives its exit code, and one that
/// could not be launched or read gives an error.
pub open spec fn outcome_of(report: ProcessReport) -> TaskOutcome {
    match report {
        ProcessReport::Completed { code, stdout, stderr } => TaskOutcome::Exited(
            normal_exit_code(code),
        ),
        _ => TaskOutcome::Errored,
    }
}

/// How a task ended, given what the operating system reported of its command.
pub fn task_outcome(report: &ProcessReport) -> (outcome: TaskOutcome)
    ensures
        outcome == outcome_of(*report),
{
    match report {
        ProcessReport::Completed { code, stdout, stderr } => TaskOutcome::Exited(
            match code {
                Some(code) => *code,
                None => 1,
            },
        ),
        _ => TaskOutcome::Errored,
    }
}

/// The status that an outcome earns.
pub fn status_for(outcome: TaskOutcome) -> (status: TargetStatus)
    ensures
        status == status_of(outcome),
{
    match outcome {
        TaskOutcome::Exited(code) => if code == 0 {
            TargetStatus::Passed
        } else {
            TargetStatus::Failed
        },
        TaskOutcome::Errored => TargetStatus::ExecutionError,
    }
}

/// Pairs every target with the status of its own task.
pub fn collect_statuses(targets: &Vec<Target>, outcomes: &Vec<TaskOutcome>) -> (results: Vec<
    (Target, TargetStatus),
>)
    ensures
        results@ == statuses(targets@, outcomes@),
{
    let mut results: Vec<(Target, TargetStatus)> = Vec::new();
    let mut i: usize = 0;
    while i < targets.len()
        invariant
            i <= targets.len(),
            results@ == statuses(targets@, outcomes@).take(i as int),
        decreases targets.len() - i,
    {
        let outcome = if i < outcomes.len() {
            outcomes[i]
        } else {
            TaskOutcome::Errored
        };
        results.push((targets[i], status_for(outcome)));
        i += 1;
        assert(results@ =~= statuses(targets@, outcomes@).take(i as int));
    }
    assert(results@ =~= statuses(targets@, outcomes@));
    results
}

/// The targets that did not pass, in order.
pub fn collect_unsettled(results: &Vec<(Target, TargetStatus)>) -> (pending: Vec<Target>)
    ensures
        pending@ == unsettled(results@),
{
    let mut pending: Vec<Target> = Vec::new();
    let mut i: usize = 0;
    while i < results.len()
        invariant
            i <= results.len(),
            pending@ == unsettled(results@.take(i as int)),
        decreases results.len() - i,
    {
        proof {
            assert(results@.take(i + 1).drop_last() =~= results@.take(i as int));
        }
        match results[i].1 {
            TargetStatus::Passed => {},
            _ => {
                pending.push(results[i].0);
            },
        }
        i += 1;
    }
    assert(results@.take(i as int) =~= results@);
    pending
}

fn any_execution_error(results: &Vec<(Target, TargetStatus)>) -> (found: bool)
    ensures
        found == exists|i: int| 0 <= i < results@.len() && (#[trigger] results@[i]).1 is ExecutionError,
{
    let mut i: usize = 0;
    while i < results.len()
        invariant
            i <= results.len(),
            forall|j: int| 0 <= j < i ==> !((#[trigger] results@[j]).1 is ExecutionError),
        decreases results.len() - i,
    {
        match results[i].1 {
            TargetStatus::ExecutionError => {
                return true;
            },
            _ => {},
        }
        i += 1;
    }
    false
}

fn copy_targets(targets: &Vec<Target>) -> (copy: Vec<Target>)
    ensures
        copy@ == targets@,
{
    let mut copy: Vec<Target> = Vec::new();
    let mut i: usize = 0;
    while i < targets.len()
        invariant
            i <= targets.len(),
            copy@ == targets@.take(i as int),
        decreases targets.len() - i,
    {
        copy.push(targets[i]);
        i += 1;
        assert(copy@ =~= targets@.take(i as int));
    }
    assert(copy@ =~= targets@);
    copy
}

impl Orchestrator {
    /// Starts a run over the given set of targets, checked concurrently.
    pub fn begin_batch(targets: Vec<Target>) -> (start: (Orchestrator, Batch))
        ensures
            start.0@ == initial_state(Mode::Batch, targets@),
            start.1@ == initial_batch(Mode::Batch, targets@),
    {
        let capture_output = targets.len() > 1;
        let batch = Batch { phase: Phase::Check, targets: copy_targets(&targets), capture_output };
        let state = Orchestrator {
            mode: Mode::Batch,
            stage: Stage::Checking,
            targets,
            checked: Vec::new(),
            pending: Vec::new(),
        };
        (state, batch)
    }

    /// Starts a run over what the target argument selects: one target on its
    /// own, with its output shown live, or all of them concurrently.
    pub fn begin(selection: Selection) -> (start: (Orchestrator, Batch))
        ensures
            start.0@ == initial_state(selected_mode(selection), selected_targets(selection)),
            start.1@ == initial_batch(selected_mode(selection), selected_targets(selection)),
    {
        match selection {
            Selection::All => Orchestrator::begin_batch(all_targets()),
            Selection::Single(target) => {
                let mut targets: Vec<Target> = Vec::new();
                targets.push(target);
                let mut launched: Vec<Target> = Vec::new();
                launched.push(target);
                assert(targets@ =~= seq![target]);
                assert(launched@ =~= seq![target]);
                let batch = Batch { phase: Phase::Check, targets: launched, capture_output: false };
                let state = Orchestrator {
                    mode: Mode::Single,
                    stage: Stage::Checking,
                    targets,
                    checked: Vec::new(),
                    pending: Vec::new(),
                };
                (state, batch)
            },
        }
    }

    /// Takes the outcomes of the phase in flight, one per launched target and
    /// in the order of the batch, and decides what follows.
    pub fn joined(self, outcomes: &Vec<TaskOutcome>) -> (next: (Orchestrator, Action))
        ensures
            (next.0@, next.1@) == step(self@, outcomes@),
    {
        match self.stage {
            Stage::Checking => {
                let checked = collect_statuses(&self.targets, outcomes);
                let pending = collect_unsettled(&checked);
                let aborts = match self.mode {
                    Mode::Single => any_execution_error(&checked),
                    Mode::Batch => false,
                };
                if aborts || pending.len() == 0 {
                    let failed_count: usize = if aborts {
                        pending.len()
                    } else {
                        0
                    };
                    let outcome = OrchestrationOutcome {
                        checked: copy_results(&checked),
                        remediated: Vec::new(),
                        failed_count,
                        success: failed_count == 0,
                    };
                    let state = Orchestrator {
                        mode: self.mode,
                        stage: Stage::Finished,
                        targets: self.targets,
                        checked,
                        pending: self.pending,
                    };
                    (state, Action::Conclude(outcome))
                } else {
                    let capture_output = match self.mode {
                        Mode::Single => false,
                        Mode::Batch => self.targets.len() > 1,
                    };
                    let batch = Batch {
                        phase: Phase::Remediate,
                        targets: copy_targets(&pending),
                        capture_output,
                    };
                    let state = Orchestrator {
                        mode: self.mode,
                        stage: Stage::Remediating,
                        targets: self.targets,
                        checked,
                        pending,
                    };
                    (state, Action::Launch(batch))
                }
            },
            Stage::Remediating => {
                let remediated = collect_statuses(&self.pending, outcomes);
                let failed_count: usize = collect_unsettled(&remediated).len();
                let outcome = OrchestrationOutcome {
                    checked: copy_results(&self.checked),
                    remediated,
                    failed_count,
                    success: failed_count == 0,
                };
                let state = Orchestrator {
                    mode: self.mode,
                    stage: Stage::Finished,
                    targets: self.targets,
                    checked: self.checked,
                    pending: self.pending,
                };
                (state, Action::Conclude(outcome))
            },
            Stage::Finished => (self, Action::Nothing),
        }
    }
}

/// The command that a phase runs for a target.
pub open spec fn command_for(
    phase: Phase,
    target: Target,
    capture_output: bool,
    config: Option<Seq<char>>,
) -> Result<CommandLine, TargetError> {
    match phase {
        Phase::Check => check_command(name_of(target), capture_output, config),
        Phase::Remediate => fix_command(name_of(target), capture_output, config),
    }
}

/// The commands of a batch, one for each of its targets and in their order. A
/// target that has no command gets the reason in its place: its task ends in
/// an error without anything being launched for it, and the other targets
/// run all the same.
pub fn dispatch(batch: &Batch, config: Option<&str>) -> (commands: Vec<
    Result<CommandDescriptor, TargetError>,
>)
    ensures
        commands@.len() == batch.targets@.len(),
        forall|i: int|
            0 <= i < commands@.len() ==> command_line(#[trigger] commands@[i]) == command_for(
                batch.phase,
                batch.targets@[i],
                batch.capture_output,
                config_text(config),
            ),
{
    let mut commands: Vec<Result<CommandDescriptor, TargetError>> = Vec::new();
    let mut index: usize = 0;
    while index < batch.targets.len()
        invariant
            index <= batch.targets.len(),
            commands@.len() == index,
            forall|i: int|
                0 <= i < commands@.len() ==> command_line(#[trigger] commands@[i]) == command_for(
                    batch.phase,
                    batch.targets@[i],
                    batch.capture_output,
                    config_text(config),
                ),
        decreases batch.targets.len() - index,
    {
        let name = target_name(batch.targets[index]);
        let command = match batch.phase {
            Phase::Check => check_target(name, batch.capture_output, config),
            Phase::Remediate => format_target(name, batch.capture_output, config),
        };
        commands.push(command);
        index += 1;
    }
    commands
}

/// Every target of the registry has a command set: with a formatter
/// configuration at hand, both of its commands exist, and without one the
/// only thing that can be missing is that configuration.
pub proof fn registered_targets_are_mapped(
    phase: Phase,
    target: Target,
    capture_output: bool,
    config: Option<Seq<char>>,
)
    ensures
        command_for(phase, target, capture_output, config) != Err::<CommandLine, TargetError>(
            TargetError::UnmappedTarget,
        ),
        command_for(phase, target, capture_output, config) != Err::<CommandLine, TargetError>(
            TargetError::InvalidTarget,
        ),
        config is Some ==> command_for(phase, target, capture_output, config) is Ok,
{
    reveal_strlit("api");
    reveal_strlit("packages");
    reveal_strlit("website");
    reveal_strlit("cv");
    assert("packages"@.len() != "api"@.len());
    assert("website"@.len() != "api"@.len());
    assert("cv"@.len() != "api"@.len());
    assert("website"@.len() != "packages"@.len());
    assert("cv"@.len() != "packages"@.len());
    assert("cv"@.len() != "website"@.len());
}

/// How a formatting run begins.
pub open spec fn run_start(target: Seq<char>) -> Result<(OrchestratorModel, BatchModel), TargetError> {
    match selection_named(target) {
        Some(selection) => Ok(
            (
                initial_state(selected_mode(selection), selected_targets(selection)),
                initial_batch(selected_mode(selection), selected_targets(selection)),
            ),
        ),
        None => Err(TargetError::InvalidTarget),
    }
}

/// What the start of a run holds.
pub open spec fn start_model(start: Result<(Orchestrator, Batch), TargetError>) -> Result<
    (OrchestratorModel, BatchModel),
    TargetError,
> {
    match start {
        Ok(begun) => Ok((begun.0@, begun.1@)),
        Err(error) => Err(error),
    }
}

/// Begins the formatting run that the target argument asks for: `all` checks
/// every target concurrently, the name of a target checks that target on its
/// own. Any other name is refused before anything is launched.
pub fn run(target: &str) -> (start: Result<(Orchestrator, Batch), TargetError>)
    ensures
        start_model(start) == run_start(target@),
{
    match parse_selection(target) {
        Ok(selection) => Ok(Orchestrator::begin(selection)),
        Err(error) => Err(error),
    }
}

fn copy_results(results: &Vec<(Target, TargetStatus)>) -> (copy: Vec<(Target, TargetStatus)>)
    ensures
        copy@ == results@,
{
    let mut copy: Vec<(Target, TargetStatus)> = Vec::new();
    let mut i: usize = 0;
    while i < results.len()
        invariant
            i <= results.len(),
            copy@ == results@.take(i as int),
        decreases results.len() - i,
    {
        copy.push(results[i]);
        i += 1;
        assert(copy@ =~= results@.take(i as int));
    }
    assert(copy@ =~= results@);
    copy
}

} // verus!
