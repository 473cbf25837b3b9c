use task_runner::orchestrator::dispatch;
use task_runner::orchestrator::run;
use task_runner::executor::ProcessReport;
use task_runner::orchestrator::status_for;
use task_runner::orchestrator::task_outcome;
use task_runner::orchestrator::Action;
use task_runner::orchestrator::Batch;
use task_runner::orchestrator::Mode;
use task_runner::orchestrator::Orchestrator;
use task_runner::orchestrator::OrchestrationOutcome;
use task_runner::orchestrator::Phase;
use task_runner::orchestrator::Stage;
use task_runner::orchestrator::TargetStatus;
use task_runner::orchestrator::TaskOutcome;
use task_runner::targets::Selection;
use task_runner::targets::Target;
use task_runner::targets::TargetError;

fn launched(action: Action) -> Batch {
    match action {
        Action::Launch(batch) => batch,
        other => panic!("expected a batch, got {:?}", other),
    }
}

fn concluded(action: Action) -> OrchestrationOutcome {
    match action {
        Action::Conclude(outcome) => outcome,
        other => panic!("expected the run to conclude, got {:?}", other),
    }
}

#[test]
fn failing_target_is_fixed_and_passing_target_is_left_alone() {
    let (state, batch) = Orchestrator::begin_batch(vec![Target::Packages, Target::Website]);
    assert_eq!(batch.phase, Phase::Check);
    assert_eq!(batch.targets, vec![Target::Packages, Target::Website]);
    assert!(batch.capture_output);

    let (state, action) = state.joined(&vec![TaskOutcome::Exited(1), TaskOutcome::Exited(0)]);
    assert_eq!(state.stage, Stage::Remediating);
    assert_eq!(
        state.checked,
        vec![(Target::Packages, TargetStatus::Failed), (Target::Website, TargetStatus::Passed)]
    );
    let fixes = launched(action);
    assert_eq!(fixes.phase, Phase::Remediate);
    assert_eq!(fixes.targets, vec![Target::Packages]);
    assert!(fixes.capture_output);

    let (state, action) = state.joined(&vec![TaskOutcome::Exited(0)]);
    assert_eq!(state.stage, Stage::Finished);
    let outcome = concluded(action);
    assert!(outcome.success);
    assert_eq!(outcome.failed_count, 0);
    assert_eq!(
        outcome.checked,
        vec![(Target::Packages, TargetStatus::Failed), (Target::Website, TargetStatus::Passed)]
    );
    assert_eq!(outcome.remediated, vec![(Target::Packages, TargetStatus::Passed)]);
}

#[test]
fn single_target_with_failing_check_is_fixed_once() {
    let (state, batch) = Orchestrator::begin(Selection::Single(Target::Cv));
    assert_eq!(state.mode, Mode::Single);
    assert_eq!(batch.targets, vec![Target::Cv]);
    assert!(!batch.capture_output);

    let (state, action) = state.joined(&vec![TaskOutcome::Exited(2)]);
    let fixes = launched(action);
    assert_eq!(fixes.phase, Phase::Remediate);
    assert_eq!(fixes.targets, vec![Target::Cv]);
    assert!(!fixes.capture_output);

    let (_, action) = state.joined(&vec![TaskOutcome::Exited(0)]);
    let outcome = concluded(action);
    assert!(outcome.success);
    assert_eq!(outcome.failed_count, 0);
    assert_eq!(outcome.remediated, vec![(Target::Cv, TargetStatus::Passed)]);
}

#[test]
fn batch_of_one_is_fixed_once_and_shows_its_output() {
    let (state, batch) = Orchestrator::begin_batch(vec![Target::Api]);
    assert_eq!(state.mode, Mode::Batch);
    assert!(!batch.capture_output);
    let (state, action) = state.joined(&vec![TaskOutcome::Exited(1)]);
    assert_eq!(launched(action).targets, vec![Target::Api]);
    let (_, action) = state.joined(&vec![TaskOutcome::Exited(0)]);
    assert!(concluded(action).success);
}

#[test]
fn passing_checks_end_the_run_without_remediation() {
    let (state, batch) = Orchestrator::begin(Selection::All);
    assert_eq!(
        batch.targets,
        vec![Target::Packages, Target::Website, Target::Cv, Target::Api]
    );
    assert!(batch.capture_output);
    let (state, action) = state.joined(&vec![TaskOutcome::Exited(0); 4]);
    assert_eq!(state.stage, Stage::Finished);
    let outcome = concluded(action);
    assert!(outcome.success);
    assert_eq!(outcome.failed_count, 0);
    assert!(outcome.remediated.is_empty());
    assert_eq!(outcome.checked.len(), 4);
    assert!(outcome.checked.iter().all(|entry| entry.1 == TargetStatus::Passed));
}

#[test]
fn single_target_with_passing_check_is_done() {
    let (state, _) = Orchestrator::begin(Selection::Single(Target::Website));
    let (_, action) = state.joined(&vec![TaskOutcome::Exited(0)]);
    let outcome = concluded(action);
    assert!(outcome.success);
    assert!(outcome.remediated.is_empty());
    assert_eq!(outcome.checked, vec![(Target::Website, TargetStatus::Passed)]);
}

#[test]
fn task_that_cannot_run_does_not_hide_its_siblings() {
    let (state, _) = Orchestrator::begin(Selection::All);
    let (state, action) = state.joined(&vec![
        TaskOutcome::Exited(0),
        TaskOutcome::Errored,
        TaskOutcome::Exited(3),
        TaskOutcome::Exited(0),
    ]);
    assert_eq!(
        state.checked,
        vec![
            (Target::Packages, TargetStatus::Passed),
            (Target::Website, TargetStatus::ExecutionError),
            (Target::Cv, TargetStatus::Failed),
            (Target::Api, TargetStatus::Passed),
        ]
    );
    let fixes = launched(action);
    assert_eq!(fixes.targets, vec![Target::Website, Target::Cv]);

    let (_, action) = state.joined(&vec![TaskOutcome::Errored, TaskOutcome::Exited(0)]);
    let outcome = concluded(action);
    assert!(!outcome.success);
    assert_eq!(outcome.failed_count, 1);
    assert_eq!(
        outcome.remediated,
        vec![(Target::Website, TargetStatus::ExecutionError), (Target::Cv, TargetStatus::Passed)]
    );
}

#[test]
fn every_failing_fix_is_counted() {
    let (state, _) = Orchestrator::begin(Selection::All);
    let (state, _) = state.joined(&vec![TaskOutcome::Exited(1); 4]);
    let (_, action) = state.joined(&vec![
        TaskOutcome::Exited(1),
        TaskOutcome::Exited(0),
        TaskOutcome::Errored,
        TaskOutcome::Exited(7),
    ]);
    let outcome = concluded(action);
    assert!(!outcome.success);
    assert_eq!(outcome.failed_count, 3);
}

#[test]
fn task_without_outcome_counts_as_not_joined() {
    let (state, _) = Orchestrator::begin_batch(vec![Target::Packages, Target::Cv]);
    let (state, action) = state.joined(&vec![TaskOutcome::Exited(0)]);
    assert_eq!(
        state.checked,
        vec![(Target::Packages, TargetStatus::Passed), (Target::Cv, TargetStatus::ExecutionError)]
    );
    assert_eq!(launched(action).targets, vec![Target::Cv]);
}

#[test]
fn single_target_whose_check_cannot_run_fails_without_fix() {
    let (state, _) = Orchestrator::begin(Selection::Single(Target::Api));
    let (state, action) = state.joined(&vec![TaskOutcome::Errored]);
    assert_eq!(state.stage, Stage::Finished);
    let outcome = concluded(action);
    assert!(!outcome.success);
    assert_eq!(outcome.failed_count, 1);
    assert!(outcome.remediated.is_empty());
    assert_eq!(outcome.checked, vec![(Target::Api, TargetStatus::ExecutionError)]);
}

#[test]
fn single_target_whose_fix_fails_fails() {
    let (state, _) = Orchestrator::begin(Selection::Single(Target::Packages));
    let (state, _) = state.joined(&vec![TaskOutcome::Exited(1)]);
    let (_, action) = state.joined(&vec![TaskOutcome::Exited(1)]);
    let outcome = concluded(action);
    assert!(!outcome.success);
    assert_eq!(outcome.failed_count, 1);
    assert_eq!(outcome.remediated, vec![(Target::Packages, TargetStatus::Failed)]);
}

#[test]
fn finished_run_ignores_further_outcomes() {
    let (state, _) = Orchestrator::begin(Selection::Single(Target::Cv));
    let (state, _) = state.joined(&vec![TaskOutcome::Exited(0)]);
    let before = state.clone();
    let (state, action) = state.joined(&vec![TaskOutcome::Exited(1)]);
    assert_eq!(action, Action::Nothing);
    assert_eq!(state, before);
}

#[test]
fn empty_batch_succeeds_at_once() {
    let (state, batch) = Orchestrator::begin_batch(vec![]);
    assert!(batch.targets.is_empty());
    assert!(!batch.capture_output);
    let (_, action) = state.joined(&vec![]);
    let outcome = concluded(action);
    assert!(outcome.success);
    assert!(outcome.checked.is_empty());
}

#[test]
fn status_follows_the_exit_code() {
    assert_eq!(status_for(TaskOutcome::Exited(0)), TargetStatus::Passed);
    assert_eq!(status_for(TaskOutcome::Exited(1)), TargetStatus::Failed);
    assert_eq!(status_for(TaskOutcome::Exited(-1)), TargetStatus::Failed);
    assert_eq!(status_for(TaskOutcome::Errored), TargetStatus::ExecutionError);
}

#[test]
fn run_refuses_an_unknown_target() {
    assert_eq!(run("docs"), Err(TargetError::InvalidTarget));
    assert_eq!(run(""), Err(TargetError::InvalidTarget));
    assert_eq!(run("ALL"), Err(TargetError::InvalidTarget));
}

#[test]
fn run_starts_with_the_check_phase() {
    let (state, batch) = run("all").unwrap();
    assert_eq!(state.mode, Mode::Batch);
    assert_eq!(state.stage, Stage::Checking);
    assert_eq!(batch.phase, Phase::Check);
    assert_eq!(batch.targets.len(), 4);
    assert!(batch.capture_output);

    let (state, batch) = run("api").unwrap();
    assert_eq!(state.mode, Mode::Single);
    assert_eq!(batch.targets, vec![Target::Api]);
    assert!(!batch.capture_output);
}

#[test]
fn dispatch_builds_one_command_for_each_target() {
    let (_, batch) = run("all").unwrap();
    let commands = dispatch(&batch, Some(".prettierrc"));
    assert_eq!(commands.len(), 4);
    let programs: Vec<String> =
        commands.iter().map(|command| command.as_ref().unwrap().program.clone()).collect();
    assert_eq!(programs, vec!["node", "node", "node", "dotnet"]);
    let packages = commands[0].as_ref().unwrap();
    assert_eq!(packages.args[1], "--check");
    assert_eq!(packages.args[2], "packages/components/**");
    let api = commands[3].as_ref().unwrap();
    assert_eq!(api.args[4], "quiet");
}

#[test]
fn dispatch_without_configuration_still_serves_the_api() {
    let batch = Batch {
        phase: Phase::Remediate,
        targets: vec![Target::Website, Target::Api],
        capture_output: false,
    };
    let commands = dispatch(&batch, None);
    assert_eq!(commands[0], Err(TargetError::MissingConfig));
    let api = commands[1].as_ref().unwrap();
    assert_eq!(api.program, "dotnet");
    assert_eq!(api.args, vec!["format", "arolariu.slnx", "--verbosity", "detailed"]);
}

#[test]
fn task_outcome_follows_the_process() {
    let ended = |code| ProcessReport::Completed { code, stdout: vec![1], stderr: vec![] };
    assert_eq!(task_outcome(&ended(Some(0))), TaskOutcome::Exited(0));
    assert_eq!(task_outcome(&ended(Some(3))), TaskOutcome::Exited(3));
    assert_eq!(task_outcome(&ended(None)), TaskOutcome::Exited(1));
    assert_eq!(task_outcome(&ProcessReport::SpawnFailed), TaskOutcome::Errored);
    assert_eq!(task_outcome(&ProcessReport::ReadFailed), TaskOutcome::Errored);
}
