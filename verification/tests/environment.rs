use task_runner::environment::begin_probe;
use task_runner::environment::check_dotnet;
use task_runner::environment::check_nodejs;
use task_runner::environment::check_npm;
use task_runner::environment::check_tool;
use task_runner::environment::command_exists;
use task_runner::environment::evaluate;
use task_runner::environment::get_command_version;
use task_runner::environment::parse_version;
use task_runner::environment::plan_probe;
use task_runner::environment::program_for;
use task_runner::environment::requirement_for;
use task_runner::environment::run;
use task_runner::environment::self_update_command;
use task_runner::environment::unresolved;
use task_runner::environment::update_outcome;
use task_runner::executor::ProcessReport;
use task_runner::environment::version_query;
use task_runner::environment::CheckReport;
use task_runner::environment::Validator;
use task_runner::environment::ValidatorAction;
use task_runner::environment::ValidatorEvent;
use task_runner::environment::ValidatorStage;
use task_runner::environment::Finding;
use task_runner::environment::Pipeline;
use task_runner::environment::Probe;
use task_runner::environment::ProbeStep;
use task_runner::environment::Remediation;
use task_runner::environment::Tool;
use task_runner::environment::UpdateOutcome;
use task_runner::environment::VersionRequirement;
use task_runner::environment::REQUIRED_DOTNET_VERSION;
use task_runner::environment::REQUIRED_NODE_VERSION;
use task_runner::environment::REQUIRED_NPM_VERSION;

fn reported(version: &str, major: u32) -> Probe {
    Probe::Reported { version: version.to_string(), major }
}

#[test]
fn required_versions() {
    assert_eq!(REQUIRED_DOTNET_VERSION, 10);
    assert_eq!(REQUIRED_NODE_VERSION, 24);
    assert_eq!(REQUIRED_NPM_VERSION, 11);
    assert_eq!(
        requirement_for(Tool::Dotnet),
        VersionRequirement { tool: Tool::Dotnet, required_major: 10 }
    );
    assert_eq!(
        requirement_for(Tool::Node),
        VersionRequirement { tool: Tool::Node, required_major: 24 }
    );
    assert_eq!(
        requirement_for(Tool::Npm),
        VersionRequirement { tool: Tool::Npm, required_major: 11 }
    );
}

#[test]
fn version_is_asked_with_a_fixed_flag() {
    let query = version_query(Tool::Node);
    assert_eq!(query.program, "node");
    assert_eq!(query.args, vec!["--version"]);
    assert_eq!(program_for(Tool::Dotnet), "dotnet");
    assert_eq!(program_for(Tool::Npm), "npm");
}

#[test]
fn version_text_loses_white_space_and_prefix() {
    assert_eq!(parse_version("v24.1.0\n"), ("24.1.0".to_string(), 24));
    assert_eq!(parse_version("10.0.100\r\n"), ("10.0.100".to_string(), 10));
    assert_eq!(parse_version("  vv9.2  "), ("9.2".to_string(), 9));
    assert_eq!(parse_version("11"), ("11".to_string(), 11));
}

#[test]
fn version_without_leading_number_has_major_zero() {
    assert_eq!(parse_version(""), (String::new(), 0));
    assert_eq!(parse_version("garbage"), ("garbage".to_string(), 0));
    assert_eq!(parse_version("v"), (String::new(), 0));
    assert_eq!(parse_version(".5"), (".5".to_string(), 0));
    assert_eq!(parse_version("12-beta.1"), ("12-beta.1".to_string(), 0));
    assert_eq!(parse_version("v 12.1"), (" 12.1".to_string(), 0));
    assert_eq!(parse_version("99999999999.1"), ("99999999999.1".to_string(), 0));
    assert_eq!(parse_version("+8.1"), ("+8.1".to_string(), 8));
}

#[test]
fn version_is_read_from_the_bytes_of_the_output() {
    assert_eq!(get_command_version(&b"v22.3.1\n".to_vec()), ("22.3.1".to_string(), 22));
    assert_eq!(get_command_version(&vec![]), (String::new(), 0));
    assert_eq!(get_command_version(&vec![0xFF, b'9']), ("\u{FFFD}9".to_string(), 0));
}

#[test]
fn finding_compares_the_major_version() {
    let requirement = VersionRequirement { tool: Tool::Node, required_major: 24 };
    assert_eq!(evaluate(requirement, &reported("24.0.0", 24)), Finding::Satisfied);
    assert_eq!(evaluate(requirement, &reported("25.1.0", 25)), Finding::Satisfied);
    assert_eq!(evaluate(requirement, &reported("23.9.9", 23)), Finding::VersionTooLow);
    assert_eq!(evaluate(requirement, &reported("", 0)), Finding::VersionTooLow);
    assert_eq!(evaluate(requirement, &Probe::Missing), Finding::MissingTool);
    assert_eq!(evaluate(requirement, &Probe::QueryFailed), Finding::VersionCheckFailed);
}

#[test]
fn toolchains_get_guidance_for_every_deficiency() {
    for probe in [Probe::Missing, Probe::QueryFailed, reported("9.0.1", 9)] {
        let dotnet = check_dotnet(&probe);
        assert_eq!(dotnet.tool, Tool::Dotnet);
        assert_eq!(dotnet.remediation, Remediation::InstallGuidance);
        assert!(unresolved(&dotnet, None));
        let node = check_nodejs(&probe);
        assert_eq!(node.tool, Tool::Node);
        assert_eq!(node.remediation, Remediation::InstallGuidance);
        assert!(unresolved(&node, None));
    }
    let fine = check_dotnet(&reported("10.0.100", 10));
    assert_eq!(
        fine,
        CheckReport {
            tool: Tool::Dotnet,
            finding: Finding::Satisfied,
            remediation: Remediation::Nothing
        }
    );
    assert!(!unresolved(&fine, None));
    assert_eq!(check_nodejs(&reported("23.0.0", 23)).finding, Finding::VersionTooLow);
    assert_eq!(check_nodejs(&reported("24.0.0", 24)).finding, Finding::Satisfied);
}

#[test]
fn old_package_manager_updates_itself() {
    let report = check_npm(&reported("9.8.1", 9));
    assert_eq!(
        report,
        CheckReport {
            tool: Tool::Npm,
            finding: Finding::VersionTooLow,
            remediation: Remediation::SelfUpdate
        }
    );
    assert!(!unresolved(&report, Some(UpdateOutcome::Succeeded)));
    assert!(unresolved(&report, Some(UpdateOutcome::Failed)));
    assert!(unresolved(&report, None));
    let command = self_update_command();
    assert_eq!(command.program, "npm");
    assert_eq!(command.args, vec!["install", "-g", "npm@latest"]);
}

#[test]
fn missing_package_manager_is_not_installed() {
    let missing = check_npm(&Probe::Missing);
    assert_eq!(missing.finding, Finding::MissingTool);
    assert_eq!(missing.remediation, Remediation::Nothing);
    assert!(unresolved(&missing, None));
    assert!(unresolved(&missing, Some(UpdateOutcome::Succeeded)));
    let failed = check_npm(&Probe::QueryFailed);
    assert_eq!(failed.finding, Finding::VersionCheckFailed);
    assert_eq!(failed.remediation, Remediation::Nothing);
    assert!(unresolved(&failed, None));
    let fine = check_npm(&reported("11.0.0", 11));
    assert_eq!(fine.finding, Finding::Satisfied);
    assert!(!unresolved(&fine, None));
    assert_eq!(check_tool(Tool::Npm, &reported("11.0.0", 11)), fine);
}

#[test]
fn old_version_is_flagged_and_the_pipeline_goes_on() {
    let mut state = Pipeline::new();
    assert_eq!(state.current(), Some(Tool::Dotnet));
    let dotnet = check_dotnet(&reported("10.0.1", 10));
    state = state.record(unresolved(&dotnet, None));
    assert_eq!(state.current(), Some(Tool::Node));
    assert_eq!(state.verdict(), None);

    let node = check_nodejs(&reported("9.0.0", 9));
    assert_eq!(node.finding, Finding::VersionTooLow);
    assert_eq!(node.remediation, Remediation::InstallGuidance);
    state = state.record(unresolved(&node, None));
    assert!(state.deficient);
    assert_eq!(state.verdict(), None);
    assert_eq!(state.current(), Some(Tool::Npm));

    let (_, installed) = parse_version("9.6.7\n");
    let npm = check_npm(&reported("9.6.7", installed));
    assert_eq!(npm.finding, Finding::VersionTooLow);
    assert_eq!(npm.remediation, Remediation::SelfUpdate);
    state = state.record(unresolved(&npm, Some(UpdateOutcome::Succeeded)));
    assert_eq!(state.current(), None);
    assert_eq!(state.verdict(), Some(true));
}

#[test]
fn pipeline_without_deficiency_gives_a_clean_verdict() {
    let state = Pipeline::new().record(false).record(false).record(false);
    assert_eq!(state, Pipeline { position: 3, deficient: false });
    assert_eq!(state.verdict(), Some(false));
    assert_eq!(state.record(true), state);
}

#[test]
fn pipeline_remembers_an_early_deficiency() {
    let state = Pipeline::new().record(true).record(false).record(false);
    assert_eq!(state.verdict(), Some(true));
    let late = Pipeline::new().record(false).record(false).record(true);
    assert_eq!(late.verdict(), Some(true));
}

#[test]
fn probe_begins_with_the_search_path() {
    assert_eq!(plan_probe(Tool::Npm, false), ProbeStep::Missing);
    assert_eq!(plan_probe(Tool::Npm, true), ProbeStep::Query(version_query(Tool::Npm)));
    let step = begin_probe(Tool::Dotnet);
    assert!(step == ProbeStep::Missing || step == ProbeStep::Query(version_query(Tool::Dotnet)));
    assert_eq!(step == ProbeStep::Missing, !command_exists("dotnet"));
}

#[test]
fn search_path_is_really_searched() {
    assert!(!command_exists("no-such-program-anywhere-4f1c9a"));
    assert!(command_exists("sh"));
}

#[test]
fn update_succeeds_only_with_exit_code_zero() {
    let ended = |code| ProcessReport::Completed { code, stdout: vec![], stderr: vec![] };
    assert_eq!(update_outcome(&ended(Some(0))), UpdateOutcome::Succeeded);
    assert_eq!(update_outcome(&ended(Some(1))), UpdateOutcome::Failed);
    assert_eq!(update_outcome(&ended(None)), UpdateOutcome::Failed);
    assert_eq!(update_outcome(&ProcessReport::SpawnFailed), UpdateOutcome::Failed);
    assert_eq!(update_outcome(&ProcessReport::ReadFailed), UpdateOutcome::Failed);
}

#[test]
fn validation_begins_with_the_first_toolchain() {
    let (state, action) = run();
    assert_eq!(action, ValidatorAction::Probe(Tool::Dotnet));
    assert_eq!(
        state,
        Validator { pipeline: Pipeline::new(), stage: ValidatorStage::Probing, report: None }
    );
}

#[test]
fn old_package_manager_is_flagged_updated_and_the_rest_still_runs() {
    let (state, _) = run();
    let (state, action) = state.step(&ValidatorEvent::Probed(Probe::Missing));
    assert_eq!(action, ValidatorAction::Probe(Tool::Node));
    assert_eq!(state.report.unwrap().finding, Finding::MissingTool);
    assert_eq!(state.report.unwrap().remediation, Remediation::InstallGuidance);
    assert!(state.pipeline.deficient);

    let (state, action) = state.step(&ValidatorEvent::Probed(reported("24.2.0", 24)));
    assert_eq!(action, ValidatorAction::Probe(Tool::Npm));
    assert_eq!(state.report.unwrap().finding, Finding::Satisfied);

    let (state, action) = state.step(&ValidatorEvent::Probed(reported("9.6.7", 9)));
    assert_eq!(action, ValidatorAction::SelfUpdate);
    assert_eq!(state.stage, ValidatorStage::Updating);
    assert_eq!(
        state.report,
        Some(CheckReport {
            tool: Tool::Npm,
            finding: Finding::VersionTooLow,
            remediation: Remediation::SelfUpdate
        })
    );

    let (state, action) = state.step(&ValidatorEvent::Updated(UpdateOutcome::Succeeded));
    assert_eq!(action, ValidatorAction::Finish { deficient: true });
    assert_eq!(state.stage, ValidatorStage::Finished);
    assert_eq!(state.pipeline.verdict(), Some(true));
}

#[test]
fn successful_update_leaves_no_deficiency() {
    let (state, _) = run();
    let (state, _) = state.step(&ValidatorEvent::Probed(reported("10.0.1", 10)));
    let (state, _) = state.step(&ValidatorEvent::Probed(reported("24.0.0", 24)));
    let (waiting, action) = state.step(&ValidatorEvent::Probed(reported("10.9.0", 10)));
    assert_eq!(action, ValidatorAction::SelfUpdate);
    let (_, action) = waiting.step(&ValidatorEvent::Updated(UpdateOutcome::Succeeded));
    assert_eq!(action, ValidatorAction::Finish { deficient: false });
    let (_, action) = waiting.step(&ValidatorEvent::Updated(UpdateOutcome::Failed));
    assert_eq!(action, ValidatorAction::Finish { deficient: true });
}

#[test]
fn clean_environment_is_validated() {
    let (state, _) = run();
    let (state, _) = state.step(&ValidatorEvent::Probed(reported("10.0.1", 10)));
    let (state, _) = state.step(&ValidatorEvent::Probed(reported("25.0.0", 25)));
    let (state, action) = state.step(&ValidatorEvent::Probed(reported("11.1.0", 11)));
    assert_eq!(action, ValidatorAction::Finish { deficient: false });
    let (after, action) = state.step(&ValidatorEvent::Probed(Probe::Missing));
    assert_eq!(action, ValidatorAction::Rejected);
    assert_eq!(after, state);
}

#[test]
fn event_that_answers_nothing_is_rejected() {
    let (state, _) = run();
    let (after, action) = state.step(&ValidatorEvent::Updated(UpdateOutcome::Succeeded));
    assert_eq!(action, ValidatorAction::Rejected);
    assert_eq!(after, state);
    let (state, _) = state.step(&ValidatorEvent::Probed(Probe::QueryFailed));
    let (state, _) = state.step(&ValidatorEvent::Probed(Probe::QueryFailed));
    let (waiting, _) = state.step(&ValidatorEvent::Probed(reported("1.0.0", 1)));
    let (after, action) = waiting.step(&ValidatorEvent::Probed(reported("11.0.0", 11)));
    assert_eq!(action, ValidatorAction::Rejected);
    assert_eq!(after, waiting);
}
