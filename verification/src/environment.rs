//! The checks of the development environment: is each required tool there,
//! and is it recent enough?
//!
//! The checks run one after another, in a fixed order, and none is skipped
//! because an earlier one found a fault: the pipeline keeps one flag that says
//! whether any deficiency is left, and gives its verdict after the last check.

use crate::executor::decode_lossy;
use crate::executor::lossy_text;
use crate::executor::CommandDescriptor;
use crate::executor::CommandLine;
use crate::executor::ProcessReport;
use crate::text::first_field;
use crate::text::leading_field;
use crate::text::parse_u32;
use crate::text::parsed_u32;
use crate::text::push_text;
use crate::text::strip_leading;
use crate::text::trim;
use crate::text::trimmed;
use crate::text::without_leading;
use vstd::prelude::*;

verus! {

/// The major version of .NET that is required.
pub const REQUIRED_DOTNET_VERSION: u32 = 10;

/// The major version of Node.js that is required.
pub const REQUIRED_NODE_VERSION: u32 = 24;

/// The major version of npm that is required.
pub const REQUIRED_NPM_VERSION: u32 = 11;

/// A tool that the repository needs.
#[derive(Clone, Copy, Debug, PartialEq, Eq)]
pub enum Tool {
    Dotnet,
    Node,
    Npm,
}

/// A tool is recent enough when its major version is at least
/// `required_major`.
#[derive(Clone, Copy, Debug, PartialEq, Eq)]
pub struct VersionRequirement {
    pub tool: Tool,
    pub required_major: u32,
}

/// The major version of a tool that is required.
pub open spec fn required_major(tool: Tool) -> u32 {
    match tool {
        Tool::Dotnet => REQUIRED_DOTNET_VERSION,
        Tool::Node => REQUIRED_NODE_VERSION,
        Tool::Npm => REQUIRED_NPM_VERSION,
    }
}

/// The requirement on a tool.
pub fn requirement_for(tool: Tool) -> (requirement: VersionRequirement)
    ensures
        requirement.tool == tool,
        requirement.required_major == required_major(tool),
{
    let required_major: u32 = match tool {
        Tool::Dotnet => REQUIRED_DOTNET_VERSION,
        Tool::Node => REQUIRED_NODE_VERSION,
        Tool::Npm => REQUIRED_NPM_VERSION,
    };
    VersionRequirement { tool, required_major }
}

/// The name under which a tool is looked for and started.
pub open spec fn program_of(tool: Tool) -> Seq<char> {
    match tool {
        Tool::Dotnet => "dotnet"@,
        Tool::Node => "node"@,
        Tool::Npm => "npm"@,
    }
}

/// The name under which a tool is looked for and started.
pub fn program_for(tool: Tool) -> (program: &'static str)
    ensures
        program@ == program_of(tool),
{
    match tool {
        Tool::Dotnet => "dotnet",
        Tool::Node => "node",
        Tool::Npm => "npm",
    }
}

/// The invocation that makes a tool print its version.
pub open spec fn version_query_of(tool: Tool) -> CommandLine {
    CommandLine { program: program_of(tool), args: seq!["--version"@], label: program_of(tool) }
}

/// The invocation that makes a tool print its version.
pub fn version_query(tool: Tool) -> (command: CommandDescriptor)
    ensures
        command@ == version_query_of(tool),
{
    let mut args: Vec<String> = Vec::new();
    assert(args.deep_view() =~= Seq::<Seq<char>>::empty());
    push_text(&mut args, "--version");
    assert(args.deep_view() =~= seq!["--version"@]);
    CommandDescriptor {
        program: String::from_str(program_for(tool)),
        args,
        label: String::from_str(program_for(tool)),
    }
}

/// `which::which`: whether an executable is found for this name, on the
/// search path or, where the name holds a path, at that path. The answer
/// depends on the machine, so nothing is promised of it.
#[verifier::external_body]
pub fn command_exists(command: &str) -> bool {
    which::which(command).is_ok()
}

/// How the check of one tool begins.
#[derive(Clone, Debug, PartialEq, Eq)]
pub enum ProbeStep {
    /// The tool is not on the search path; there is no version to ask for.
    Missing,
    /// The tool is there; this command makes it print its version.
    Query(CommandDescriptor),
}

/// What a [`ProbeStep`] holds.
pub ghost enum ProbeStepModel {
    Missing,
    Query(CommandLine),
}

impl View for ProbeStep {
    type V = ProbeStepModel;

    open spec fn view(&self) -> ProbeStepModel {
        match self {
            ProbeStep::Missing => ProbeStepModel::Missing,
            ProbeStep::Query(command) => ProbeStepModel::Query(command@),
        }
    }
}

/// A tool that is there is asked for its version; one that is not is reported
/// missing.
pub open spec fn probe_step(tool: Tool, present: bool) -> ProbeStepModel {
    if present {
        ProbeStepModel::Query(version_query_of(tool))
    } else {
        ProbeStepModel::Missing
    }
}

/// How the check of `tool` begins, given whether the tool was found.
pub fn plan_probe(tool: Tool, present: bool) -> (step: ProbeStep)
    ensures
        step@ == probe_step(tool, present),
{
    if present {
        ProbeStep::Query(version_query(tool))
    } else {
        ProbeStep::Missing
    }
}

/// Looks for `tool` on the search path and says how its check begins.
pub fn begin_probe(tool: Tool) -> (step: ProbeStep)
    ensures
        step@ == probe_step(tool, true) || step@ == probe_step(tool, false),
{
    let present = command_exists(program_for(tool));
    plan_probe(tool, present)
}

/// The version that a tool printed: its output without the white space around
/// it and without the `v` that may stand before the number.
pub open spec fn version_text(output: Seq<char>) -> Seq<char> {
    without_leading(trimmed(output), 'v')
}

/// The major version: the number before the first dot. A version that does
/// not start with a number has major version 0, which meets no requirement.
pub open spec fn major_version(version: Seq<char>) -> u32 {
    match parsed_u32(first_field(version, '.')) {
        Some(major) => major,
        None => 0,
    }
}

/// Reads the version that a tool printed.
pub fn parse_version(output: &str) -> (version: (String, u32))
    ensures
        version.0@ == version_text(output@),
        version.1 == major_version(version_text(output@)),
{
    let text = strip_leading(trim(output), 'v');
    let major: u32 = match parse_u32(leading_field(text, '.')) {
        Some(major) => major,
        None => 0,
    };
    (String::from_str(text), major)
}

/// Reads the version from the bytes that a tool wrote to its standard output.
pub fn get_command_version(stdout: &Vec<u8>) -> (version: (String, u32))
    ensures
        version.0@ == version_text(lossy_text(stdout@)),
        version.1 == major_version(version_text(lossy_text(stdout@))),
{
    let output = decode_lossy(stdout);
    parse_version(output.as_str())
}

/// What was learned of one tool.
#[derive(Clone, Debug, PartialEq, Eq)]
pub enum Probe {
    /// The tool is not on the search path.
    Missing,
    /// The tool could not be asked for its version.
    QueryFailed,
    Reported { version: String, major: u32 },
}

/// What the check of one tool found.
#[derive(Clone, Copy, Debug, PartialEq, Eq)]
pub enum Finding {
    Satisfied,
    MissingTool,
    VersionTooLow,
    VersionCheckFailed,
}

/// What is done about a finding.
#[derive(Clone, Copy, Debug, PartialEq, Eq)]
pub enum Remediation {
    /// Nothing beyond reporting the finding.
    Nothing,
    /// The user is told where to get the tool. Nothing is installed.
    InstallGuidance,
    /// The tool is asked to update itself.
    SelfUpdate,
}

/// How a self-update ended.
#[derive(Clone, Copy, Debug, PartialEq, Eq)]
pub enum UpdateOutcome {
    Succeeded,
    Failed,
}

/// The result of the check of one tool.
#[derive(Clone, Copy, Debug, PartialEq, Eq)]
pub struct CheckReport {
    pub tool: Tool,
    pub finding: Finding,
    pub remediation: Remediation,
}

/// A tool that is missing or cannot be asked does not meet the requirement,
/// and neither does one whose major version is below the required one.
pub open spec fn finding_of(required: u32, probe: Probe) -> Finding {
    match probe {
        Probe::Missing => Finding::MissingTool,
        Probe::QueryFailed => Finding::VersionCheckFailed,
        Probe::Reported { version, major } => if major < required {
            Finding::VersionTooLow
        } else {
            Finding::Satisfied
        },
    }
}

/// For the two toolchains every deficiency is answered with guidance. The
/// package manager comes with one of them, so it is never installed on its
/// own; where it is too old it is asked to update itself.
pub open spec fn remediation_of(tool: Tool, finding: Finding) -> Remediation {
    match tool {
        Tool::Npm => match finding {
            Finding::VersionTooLow => Remediation::SelfUpdate,
            _ => Remediation::Nothing,
        },
        _ => match finding {
            Finding::Satisfied => Remediation::Nothing,
            _ => Remediation::InstallGuidance,
        },
    }
}

/// The check of a tool: what was found, and what is done about it.
pub open spec fn check_of(tool: Tool, probe: Probe) -> CheckReport {
    let finding = finding_of(required_major(tool), probe);
    CheckReport { tool, finding, remediation: remediation_of(tool, finding) }
}

/// Judges what was learned of a tool against a requirement.
pub fn evaluate(requirement: VersionRequirement, probe: &Probe) -> (finding: Finding)
    ensures
        finding == finding_of(requirement.required_major, *probe),
{
    match probe {
        Probe::Missing => Finding::MissingTool,
        Probe::QueryFailed => Finding::VersionCheckFailed,
        Probe::Reported { version, major } => if *major < requirement.required_major {
            Finding::VersionTooLow
        } else {
            Finding::Satisfied
        },
    }
}

/// The check of one tool.
pub fn check_tool(tool: Tool, probe: &Probe) -> (report: CheckReport)
    ensures
        report == check_of(tool, *probe),
{
    let finding = evaluate(requirement_for(tool), probe);
    let remediation = match tool {
        Tool::Npm => match finding {
            Finding::VersionTooLow => Remediation::SelfUpdate,
            _ => Remediation::Nothing,
        },
        _ => match finding {
            Finding::Satisfied => Remediation::Nothing,
            _ => Remediation::InstallGuidance,
        },
    };
    CheckReport { tool, finding, remediation }
}

/// The check of the .NET toolchain.
pub fn check_dotnet(probe: &Probe) -> (report: CheckReport)
    ensures
        report == check_of(Tool::Dotnet, *probe),
{
    check_tool(Tool::Dotnet, probe)
}

/// The check of the Node.js toolchain.
pub fn check_nodejs(probe: &Probe) -> (report: CheckReport)
    ensures
        report == check_of(Tool::Node, *probe),
{
    check_tool(Tool::Node, probe)
}

/// The check of the package manager.
pub fn check_npm(probe: &Probe) -> (report: CheckReport)
    ensures
        report == check_of(Tool::Npm, *probe),
{
    check_tool(Tool::Npm, probe)
}

/// The command of the self-update of the package manager.
pub open spec fn self_update_of() -> CommandLine {
    CommandLine {
        program: "npm"@,
        args: seq!["install"@, "-g"@, "npm@latest"@],
        label: "Updating npm..."@,
    }
}

/// The command of the self-update of the package manager.
pub fn self_update_command() -> (command: CommandDescriptor)
    ensures
        command@ == self_update_of(),
{
    let mut args: Vec<String> = Vec::new();
    assert(args.deep_view() =~= Seq::<Seq<char>>::empty());
    push_text(&mut args, "install");
    push_text(&mut args, "-g");
    push_text(&mut args, "npm@latest");
    assert(args.deep_view() =~= seq!["install"@, "-g"@, "npm@latest"@]);
    CommandDescriptor {
        program: String::from_str("npm"),
        args,
        label: String::from_str("Updating npm..."),
    }
}

/// A self-update succeeded exactly when its command ran to its end with exit
/// code 0.
pub open spec fn update_outcome_of(report: ProcessReport) -> UpdateOutcome {
    match report {
        ProcessReport::Completed { code, stdout, stderr } => if code == Some(0i32) {
            UpdateOutcome::Succeeded
        } else {
            UpdateOutcome::Failed
        },
        _ => UpdateOutcome::Failed,
    }
}

/// How a self-update ended, given what the operating system reported of it.
pub fn update_outcome(report: &ProcessReport) -> (outcome: UpdateOutcome)
    ensures
        outcome == update_outcome_of(*report),
{
    match report {
        ProcessReport::Completed { code, stdout, stderr } => match code {
            Some(code) => if *code == 0 {
                UpdateOutcome::Succeeded
            } else {
                UpdateOutcome::Failed
            },
            None => UpdateOutcome::Failed,
        },
        _ => UpdateOutcome::Failed,
    }
}

/// Whether a check leaves a deficiency. A self-update that succeeded has
/// resolved the finding; guidance resolves nothing.
pub open spec fn leaves_deficiency(report: CheckReport, update: Option<UpdateOutcome>) -> bool {
    match report.finding {
        Finding::Satisfied => false,
        _ => !(report.remediation is SelfUpdate && update == Some(UpdateOutcome::Succeeded)),
    }
}

/// Whether a check leaves a deficiency, given how the self-update ended where
/// one was made.
pub fn unresolved(report: &CheckReport, update: Option<UpdateOutcome>) -> (deficient: bool)
    ensures
        deficient == leaves_deficiency(*report, update),
{
    match report.finding {
        Finding::Satisfied => false,
        _ => match report.remediation {
            Remediation::SelfUpdate => match update {
                Some(UpdateOutcome::Succeeded) => false,
                _ => true,
            },
            _ => true,
        },
    }
}

/// The tools in the order in which they are checked.
pub open spec fn check_order() -> Seq<Tool> {
    seq![Tool::Dotnet, Tool::Node, Tool::Npm]
}

/// The state of the pipeline: how many checks are done, and whether any of
/// them left a deficiency.
#[derive(Clone, Copy, Debug, PartialEq, Eq)]
pub struct Pipeline {
    pub position: usize,
    pub deficient: bool,
}

/// The state after the checks whose results are `results`, taken in order.
/// Results beyond the last check change nothing.
pub open spec fn after_checks(results: Seq<bool>) -> Pipeline
    decreases results.len(),
{
    if results.len() == 0 {
        Pipeline { position: 0, deficient: false }
    } else {
        recorded(after_checks(results.drop_last()), results.last())
    }
}

/// The state after one more check, whose result is `deficient`.
pub open spec fn recorded(state: Pipeline, deficient: bool) -> Pipeline {
    if state.position < check_order().len() {
        Pipeline { position: (state.position + 1) as usize, deficient: state.deficient || deficient }
    } else {
        state
    }
}

/// The tool that is checked next; none once every tool was checked.
pub open spec fn next_tool(state: Pipeline) -> Option<Tool> {
    if state.position < check_order().len() {
        Some(check_order()[state.position as int])
    } else {
        None
    }
}

/// The verdict, once every tool was checked: true says that a deficiency is
/// left.
pub open spec fn verdict_of(state: Pipeline) -> Option<bool> {
    if state.position < check_order().len() {
        None
    } else {
        Some(state.deficient)
    }
}

impl Pipeline {
    /// The pipeline before its first check.
    pub fn new() -> (state: Pipeline)
        ensures
            state == after_checks(Seq::empty()),
    {
        Pipeline { position: 0, deficient: false }
    }

    /// The tool to check next.
    pub fn current(&self) -> (tool: Option<Tool>)
        ensures
            tool == next_tool(*self),
    {
        if self.position == 0 {
            Some(Tool::Dotnet)
        } else if self.position == 1 {
            Some(Tool::Node)
        } else if self.position == 2 {
            Some(Tool::Npm)
        } else {
            None
        }
    }

    /// Takes the result of the check of the current tool and moves on to the
    /// next tool, whatever the result was.
    pub fn record(self, deficient: bool) -> (state: Pipeline)
        ensures
            state == recorded(self, deficient),
    {
        if self.position < 3 {
            Pipeline { position: self.position + 1, deficient: self.deficient || deficient }
        } else {
            self
        }
    }

    /// The verdict of the whole pipeline; none before the last check is done.
    pub fn verdict(&self) -> (verdict: Option<bool>)
        ensures
            verdict == verdict_of(*self),
    {
        if self.position < 3 {
            None
        } else {
            Some(self.deficient)
        }
    }
}

/// What the validation is waiting for.
#[derive(Clone, Copy, Debug, PartialEq, Eq)]
pub enum ValidatorStage {
    /// For what was learned of the current tool.
    Probing,
    /// For the end of the self-update of the current tool.
    Updating,
    Finished,
}

/// The state of the validation of the environment.
#[derive(Clone, Copy, Debug, PartialEq, Eq)]
pub struct Validator {
    pub pipeline: Pipeline,
    pub stage: ValidatorStage,
    /// The check of the tool that was looked at last.
    pub report: Option<CheckReport>,
}

/// What the caller reports back.
#[derive(Clone, Debug, PartialEq, Eq)]
pub enum ValidatorEvent {
    Probed(Probe),
    Updated(UpdateOutcome),
}

/// What the caller does next.
#[derive(Clone, Copy, Debug, PartialEq, Eq)]
pub enum ValidatorAction {
    /// Find out whether this tool is there and which version it has.
    Probe(Tool),
    /// Run the self-update of the package manager.
    SelfUpdate,
    /// Every tool was checked; `deficient` says whether a deficiency is left.
    Finish { deficient: bool },
    /// The event answers no action that is in flight; nothing changed.
    Rejected,
}

/// The state in which the validation begins.
pub open spec fn validator_start() -> Validator {
    Validator { pipeline: after_checks(Seq::empty()), stage: ValidatorStage::Probing, report: None }
}

/// The state and the action after the check of the current tool is settled
/// with the result `deficient`: the next tool is probed, whatever the result
/// was, and after the last tool the validation ends.
pub open spec fn settled(state: Validator, report: CheckReport, deficient: bool) -> (
    Validator,
    ValidatorAction,
) {
    let pipeline = recorded(state.pipeline, deficient);
    match next_tool(pipeline) {
        Some(tool) => (
            Validator { pipeline, stage: ValidatorStage::Probing, report: Some(report) },
            ValidatorAction::Probe(tool),
        ),
        None => (
            Validator { pipeline, stage: ValidatorStage::Finished, report: Some(report) },
            ValidatorAction::Finish { deficient: pipeline.deficient },
        ),
    }
}

/// The transition that an event causes.
pub open spec fn validator_step(state: Validator, event: ValidatorEvent) -> (
    Validator,
    ValidatorAction,
) {
    match (state.stage, event, next_tool(state.pipeline), state.report) {
        (ValidatorStage::Probing, ValidatorEvent::Probed(probe), Some(tool), _) => {
            let report = check_of(tool, probe);
            if report.remediation is SelfUpdate {
                (
                    Validator { stage: ValidatorStage::Updating, report: Some(report), ..state },
                    ValidatorAction::SelfUpdate,
                )
            } else {
                settled(state, report, leaves_deficiency(report, None))
            }
        },
        (ValidatorStage::Updating, ValidatorEvent::Updated(outcome), _, Some(report)) => settled(
            state,
            report,
            leaves_deficiency(report, Some(outcome)),
        ),
        _ => (state, ValidatorAction::Rejected),
    }
}

fn settle(state: Validator, report: CheckReport, deficient: bool) -> (next: (
    Validator,
    ValidatorAction,
))
    ensures
        next == settled(state, report, deficient),
{
    let pipeline = state.pipeline.record(deficient);
    match pipeline.current() {
        Some(tool) => (
            Validator { pipeline, stage: ValidatorStage::Probing, report: Some(report) },
            ValidatorAction::Probe(tool),
        ),
        None => (
            Validator { pipeline, stage: ValidatorStage::Finished, report: Some(report) },
            ValidatorAction::Finish { deficient: pipeline.deficient },
        ),
    }
}

impl Validator {
    /// Takes what the caller reports of the action in flight and decides what
    /// follows.
    pub fn step(self, event: &ValidatorEvent) -> (next: (Validator, ValidatorAction))
        ensures
            next == validator_step(self, *event),
    {
        match self.stage {
            ValidatorStage::Probing => match event {
                ValidatorEvent::Probed(probe) => match self.pipeline.current() {
                    Some(tool) => {
                        let report = check_tool(tool, probe);
                        match report.remediation {
                            Remediation::SelfUpdate => (
                                Validator {
                                    pipeline: self.pipeline,
                                    stage: ValidatorStage::Updating,
                                    report: Some(report),
                                },
                                ValidatorAction::SelfUpdate,
                            ),
                            _ => {
                                let deficient = unresolved(&report, None);
                                settle(self, report, deficient)
                            },
                        }
                    },
                    None => (self, ValidatorAction::Rejected),
                },
                _ => (self, ValidatorAction::Rejected),
            },
            ValidatorStage::Updating => match event {
                ValidatorEvent::Updated(outcome) => match self.report {
                    Some(report) => {
                        let deficient = unresolved(&report, Some(*outcome));
                        settle(self, report, deficient)
                    },
                    None => (self, ValidatorAction::Rejected),
                },
                _ => (self, ValidatorAction::Rejected),
            },
            ValidatorStage::Finished => (self, ValidatorAction::Rejected),
        }
    }
}

/// Begins the validation of the environment: nothing is checked yet, nothing
/// is known to be deficient, and the first tool is to be probed.
pub fn run() -> (start: (Validator, ValidatorAction))
    ensures
        start == (validator_start(), ValidatorAction::Probe(Tool::Dotnet)),
{
    (
        Validator { pipeline: Pipeline::new(), stage: ValidatorStage::Probing, report: None },
        ValidatorAction::Probe(Tool::Dotnet),
    )
}

/// The state after the check of the current tool, where `probe` is what was
/// learned of the tool and `update` is how its self-update ended, should one
/// be asked for.
pub open spec fn after_tool(state: Validator, probe: Probe, update: UpdateOutcome) -> (
    Validator,
    ValidatorAction,
) {
    let (next, action) = validator_step(state, ValidatorEvent::Probed(probe));
    if action is SelfUpdate {
        validator_step(next, ValidatorEvent::Updated(update))
    } else {
        (next, action)
    }
}

/// Whether the check of `tool` leaves a deficiency, where `probe` is what was
/// learned of the tool and `update` is how its self-update ended, should one
/// be asked for.
pub open spec fn deficiency_of(tool: Tool, probe: Probe, update: UpdateOutcome) -> bool {
    leaves_deficiency(
        check_of(tool, probe),
        if check_of(tool, probe).remediation is SelfUpdate {
            Some(update)
        } else {
            None
        },
    )
}

/// The validation never ends early. Whatever is learned of the first tool,
/// the second is probed next, and then the third; the validation ends only
/// after the third, and its verdict tells whether any of the three checks
/// left a deficiency.
pub proof fn validation_checks_every_tool(
    dotnet: Probe,
    node: Probe,
    npm: Probe,
    update: UpdateOutcome,
)
    ensures
        ({
            let first = after_tool(validator_start(), dotnet, update);
            let second = after_tool(first.0, node, update);
            let third = after_tool(second.0, npm, update);
            &&& first.1 == ValidatorAction::Probe(Tool::Node)
            &&& second.1 == ValidatorAction::Probe(Tool::Npm)
            &&& third.1 == ValidatorAction::Finish {
                deficient: deficiency_of(Tool::Dotnet, dotnet, update) || deficiency_of(
                    Tool::Node,
                    node,
                    update,
                ) || deficiency_of(Tool::Npm, npm, update),
            }
            &&& third.0.stage is Finished
        }),
{
    let start = validator_start();
    assert(start.pipeline.position == 0);
    let first = after_tool(start, dotnet, update);
    assert(first.0.pipeline.position == 1);
    assert(first.0.pipeline.deficient == deficiency_of(Tool::Dotnet, dotnet, update));
    let second = after_tool(first.0, node, update);
    assert(second.0.pipeline.position == 2);
    let third = after_tool(second.0, npm, update);
    assert(third.0.pipeline.position == 3);
}

/// No check is skipped: whatever the first and the second check find, the
/// three tools are checked in their order, there is no verdict before the
/// last check, and the verdict says whether any of the three left a
/// deficiency.
pub proof fn pipeline_runs_every_check(first: bool, second: bool, third: bool)
    ensures
        next_tool(after_checks(Seq::empty())) == Some(Tool::Dotnet),
        next_tool(after_checks(seq![first])) == Some(Tool::Node),
        next_tool(after_checks(seq![first, second])) == Some(Tool::Npm),
        verdict_of(after_checks(Seq::empty())) is None,
        verdict_of(after_checks(seq![first])) is None,
        verdict_of(after_checks(seq![first, second])) is None,
        next_tool(after_checks(seq![first, second, third])) is None,
        verdict_of(after_checks(seq![first, second, third])) == Some(first || second || third),
{
    let none = Seq::<bool>::empty();
    let one = seq![first];
    let two = seq![first, second];
    let three = seq![first, second, third];
    assert(one.drop_last() =~= none);
    assert(two.drop_last() =~= one);
    assert(three.drop_last() =~= two);
    assert(after_checks(none).position == 0);
    assert(after_checks(one) == recorded(after_checks(none), first));
    assert(after_checks(two) == recorded(after_checks(one), second));
    assert(after_checks(three) == recorded(after_checks(two), third));
}

} // verus!
