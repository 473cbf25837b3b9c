//! The end-to-end test suites: where their collections and reports are kept,
//! how the external runner is invoked, and what decides whether a suite
//! passed.

use crate::collection::inject_auth_token_into_collection;
use crate::collection::token_injection;
use crate::collection::CollectionError;
use crate::collection::InjectionModel;
use crate::executor::CommandDescriptor;
use crate::executor::CommandLine;
use crate::orchestrator::TaskOutcome;
use crate::report::summary_of_text;
use crate::report::summary_text;
use crate::report::write_assertion_summary;
use crate::text::push_text;
use crate::text::same_text;
use vstd::prelude::*;

verus! {

/// Why a suite cannot be run.
#[derive(Clone, Copy, Debug, PartialEq, Eq)]
pub enum SuiteError {
    /// The name is not that of a suite.
    InvalidTarget,
    /// The authentication token is missing or empty.
    MissingToken,
}

/// The suites that a target argument selects, in the order in which they run.
pub open spec fn suites_named(name: Seq<char>) -> Option<Seq<Seq<char>>> {
    if name == "frontend"@ {
        Some(seq!["frontend"@])
    } else if name == "backend"@ {
        Some(seq!["backend"@])
    } else if name == "all"@ {
        Some(seq!["frontend"@, "backend"@])
    } else {
        None
    }
}

/// The suites that a target argument selects, in the order in which they run.
pub fn selected_suites(name: &str) -> (suites: Result<Vec<String>, SuiteError>)
    ensures
        match suites {
            Ok(names) => suites_named(name@) == Some(names.deep_view()),
            Err(error) => suites_named(name@) is None && error == SuiteError::InvalidTarget,
        },
{
    let mut names: Vec<String> = Vec::new();
    assert(names.deep_view() =~= Seq::<Seq<char>>::empty());
    if same_text(name, "frontend") {
        push_text(&mut names, "frontend");
        assert(names.deep_view() =~= seq!["frontend"@]);
        Ok(names)
    } else if same_text(name, "backend") {
        push_text(&mut names, "backend");
        assert(names.deep_view() =~= seq!["backend"@]);
        Ok(names)
    } else if same_text(name, "all") {
        push_text(&mut names, "frontend");
        push_text(&mut names, "backend");
        assert(names.deep_view() =~= seq!["frontend"@, "backend"@]);
        Ok(names)
    } else {
        Err(SuiteError::InvalidTarget)
    }
}

/// Begins an end-to-end run: the suites that the target argument selects, in
/// the order in which they run. Each suite runs only if the one before it
/// passed.
pub fn run(target: &str) -> (suites: Result<Vec<String>, SuiteError>)
    ensures
        match suites {
            Ok(names) => suites_named(target@) == Some(names.deep_view()),
            Err(error) => suites_named(target@) is None && error == SuiteError::InvalidTarget,
        },
{
    selected_suites(target)
}

/// What a run over several suites does next.
#[derive(Clone, Copy, Debug, PartialEq, Eq)]
pub enum SequenceStep {
    /// Run the suite at this position.
    Run(usize),
    /// The suite at this position failed; the suites after it do not run.
    Stop(usize),
    /// Every suite passed.
    Done,
}

/// The first position at or after `from` whose suite did not pass, or the
/// number of verdicts where all passed.
pub open spec fn first_failed(passed: Seq<bool>, from: int) -> int
    decreases passed.len() - from,
{
    if 0 <= from < passed.len() && passed[from] {
        first_failed(passed, from + 1)
    } else {
        from
    }
}

/// The suites run one after another, and the first that fails ends the run.
/// `passed` holds the verdicts of the suites that ran so far.
pub open spec fn sequence_step(count: nat, passed: Seq<bool>) -> SequenceStep {
    let index = first_failed(passed, 0);
    if index < count {
        if index < passed.len() {
            SequenceStep::Stop(index as usize)
        } else {
            SequenceStep::Run(index as usize)
        }
    } else {
        SequenceStep::Done
    }
}

/// What a run over `count` suites does next, given the verdicts of the suites
/// that ran so far.
pub fn next_suite(count: usize, passed: &Vec<bool>) -> (step: SequenceStep)
    ensures
        step == sequence_step(count as nat, passed@),
{
    let mut index: usize = 0;
    while index < passed.len() && passed[index]
        invariant
            index <= passed.len(),
            first_failed(passed@, 0) == first_failed(passed@, index as int),
        decreases passed.len() - index,
    {
        index += 1;
    }
    if index < count {
        if index < passed.len() {
            SequenceStep::Stop(index)
        } else {
            SequenceStep::Run(index)
        }
    } else {
        SequenceStep::Done
    }
}

/// The directory of the site that a suite tests.
pub open spec fn site_directory(target: Seq<char>) -> Option<Seq<char>> {
    if target == "frontend"@ {
        Some("sites/arolariu.ro"@)
    } else if target == "backend"@ {
        Some("sites/api.arolariu.ro"@)
    } else {
        None
    }
}

/// The path of the collection of a suite.
pub open spec fn collection_path(target: Seq<char>) -> Option<Seq<char>> {
    match site_directory(target) {
        Some(directory) => Some(directory + "/postman-collection.json"@),
        None => None,
    }
}

/// The path of the collection of the suite `target`.
pub fn load_openapi_test_collection_path(target: &str) -> (path: Result<String, SuiteError>)
    ensures
        match path {
            Ok(found) => collection_path(target@) == Some(found@),
            Err(error) => collection_path(target@) is None && error == SuiteError::InvalidTarget,
        },
{
    let directory = if same_text(target, "frontend") {
        "sites/arolariu.ro"
    } else if same_text(target, "backend") {
        "sites/api.arolariu.ro"
    } else {
        return Err(SuiteError::InvalidTarget);
    };
    let mut path = String::from_str(directory);
    path.append("/postman-collection.json");
    Ok(path)
}

/// The token that the suites authenticate with. A token that is not set
/// counts as empty, and an empty token is refused before anything runs.
pub fn require_auth_token(token: Option<&str>) -> (checked: Result<String, SuiteError>)
    ensures
        match checked {
            Ok(found) => token matches Some(given) && given@ == found@ && found@.len() > 0,
            Err(error) => error == SuiteError::MissingToken && match token {
                Some(given) => given@.len() == 0,
                None => true,
            },
        },
{
    match token {
        Some(given) => {
            if given.unicode_len() == 0 {
                Err(SuiteError::MissingToken)
            } else {
                Ok(String::from_str(given))
            }
        },
        None => Err(SuiteError::MissingToken),
    }
}

/// The directory that the reports are written to: the one that was asked
/// for, else `e2e-logs`.
pub open spec fn report_directory_of(requested: Option<Seq<char>>) -> Seq<char> {
    match requested {
        Some(directory) => directory,
        None => "e2e-logs"@,
    }
}

/// The directory that the reports are written to.
pub fn report_directory(requested: Option<&str>) -> (directory: String)
    ensures
        directory@ == report_directory_of(
            match requested {
                Some(given) => Some(given@),
                None => None,
            },
        ),
{
    match requested {
        Some(given) => String::from_str(given),
        None => String::from_str("e2e-logs"),
    }
}

/// The path of a report of the suite `target`: the files of one suite differ
/// in their ending only.
pub open spec fn report_path(report_dir: Seq<char>, target: Seq<char>, ending: Seq<char>) -> Seq<
    char,
> {
    report_dir + "/newman-"@ + target + ending
}

fn report_file(report_dir: &str, target: &str, ending: &str) -> (path: String)
    ensures
        path@ == report_path(report_dir@, target@, ending@),
{
    let mut path = String::from_str(report_dir);
    path.append("/newman-");
    path.append(target);
    path.append(ending);
    path
}

/// The path of the JSON result tree of a suite.
pub fn json_report_path(report_dir: &str, target: &str) -> (path: String)
    ensures
        path@ == report_path(report_dir@, target@, ".json"@),
{
    report_file(report_dir, target, ".json")
}

/// The path of the JUnit XML tree of a suite.
pub fn junit_report_path(report_dir: &str, target: &str) -> (path: String)
    ensures
        path@ == report_path(report_dir@, target@, ".xml"@),
{
    report_file(report_dir, target, ".xml")
}

/// The path of the failure summary of a suite.
pub fn summary_path(report_dir: &str, target: &str) -> (path: String)
    ensures
        path@ == report_path(report_dir@, target@, "-summary.md"@),
{
    report_file(report_dir, target, "-summary.md")
}

/// The invocation of the external runner on the collection at `path`: it
/// reports to the console and writes a JSON and a JUnit report under
/// `report_dir`.
pub open spec fn suite_command(target: Seq<char>, path: Seq<char>, report_dir: Seq<char>) -> CommandLine {
    CommandLine {
        program: "npx"@,
        args: seq![
            "newman"@,
            "run"@,
            path,
            "--reporters"@,
            "cli,json,junit"@,
            "--reporter-json-export"@,
            report_path(report_dir, target, ".json"@),
            "--reporter-junit-export"@,
            report_path(report_dir, target, ".xml"@),
        ],
        label: "Running Newman test collection for: "@ + target,
    }
}

/// The invocation of the external runner for the suite `target`.
pub fn run_openapi_test_collection(target: &str, path: &str, report_dir: &str) -> (command:
    CommandDescriptor)
    ensures
        command@ == suite_command(target@, path@, report_dir@),
{
    let json_path = json_report_path(report_dir, target);
    let junit_path = junit_report_path(report_dir, target);
    let mut args: Vec<String> = Vec::new();
    assert(args.deep_view() =~= Seq::<Seq<char>>::empty());
    push_text(&mut args, "newman");
    push_text(&mut args, "run");
    push_text(&mut args, path);
    push_text(&mut args, "--reporters");
    push_text(&mut args, "cli,json,junit");
    push_text(&mut args, "--reporter-json-export");
    push_text(&mut args, json_path.as_str());
    push_text(&mut args, "--reporter-junit-export");
    push_text(&mut args, junit_path.as_str());
    assert(args.deep_view() =~= suite_command(target@, path@, report_dir@).args);
    let mut label = String::from_str("Running Newman test collection for: ");
    label.append(target);
    CommandDescriptor { program: String::from_str("npx"), args, label }
}

/// Everything that one suite needs before it runs.
#[derive(Clone, Debug, PartialEq, Eq)]
pub struct SuitePlan {
    pub token: String,
    pub collection_path: String,
    pub report_dir: String,
    pub command: CommandDescriptor,
    pub json_report: String,
    pub summary_file: String,
}

/// What a [`SuitePlan`] holds.
pub ghost struct SuitePlanModel {
    pub token: Seq<char>,
    pub collection_path: Seq<char>,
    pub report_dir: Seq<char>,
    pub command: CommandLine,
    pub json_report: Seq<char>,
    pub summary_file: Seq<char>,
}

impl View for SuitePlan {
    type V = SuitePlanModel;

    open spec fn view(&self) -> SuitePlanModel {
        SuitePlanModel {
            token: self.token@,
            collection_path: self.collection_path@,
            report_dir: self.report_dir@,
            command: self.command@,
            json_report: self.json_report@,
            summary_file: self.summary_file@,
        }
    }
}

/// The plan of the suite `target`. The token is looked at first: without it
/// no suite is planned, whatever its name.
pub open spec fn suite_plan(
    target: Seq<char>,
    token: Option<Seq<char>>,
    requested_dir: Option<Seq<char>>,
) -> Result<SuitePlanModel, SuiteError> {
    if token is None || token->Some_0.len() == 0 {
        Err(SuiteError::MissingToken)
    } else {
        match collection_path(target) {
            None => Err(SuiteError::InvalidTarget),
            Some(path) => {
                let report_dir = report_directory_of(requested_dir);
                Ok(
                    SuitePlanModel {
                        token: token->Some_0,
                        collection_path: path,
                        report_dir,
                        command: suite_command(target, path, report_dir),
                        json_report: report_path(report_dir, target, ".json"@),
                        summary_file: report_path(report_dir, target, "-summary.md"@),
                    },
                )
            },
        }
    }
}

/// The text, where one is given.
pub open spec fn text_of(text: Option<&str>) -> Option<Seq<char>> {
    match text {
        Some(given) => Some(given@),
        None => None,
    }
}

/// What the plan of a suite holds.
pub open spec fn plan_model(plan: Result<SuitePlan, SuiteError>) -> Result<
    SuitePlanModel,
    SuiteError,
> {
    match plan {
        Ok(found) => Ok(found@),
        Err(error) => Err(error),
    }
}

/// Plans the suite `target`: checks the token, finds the collection, and
/// names the report files and the invocation of the runner.
pub fn plan_suite(target: &str, token: Option<&str>, requested_dir: Option<&str>) -> (plan:
    Result<SuitePlan, SuiteError>)
    ensures
        plan_model(plan) == suite_plan(target@, text_of(token), text_of(requested_dir)),
{
    let token = match require_auth_token(token) {
        Ok(found) => found,
        Err(error) => {
            return Err(error);
        },
    };
    let collection_path = match load_openapi_test_collection_path(target) {
        Ok(found) => found,
        Err(error) => {
            return Err(error);
        },
    };
    let report_dir = report_directory(requested_dir);
    let command = run_openapi_test_collection(
        target,
        collection_path.as_str(),
        report_dir.as_str(),
    );
    let json_report = json_report_path(report_dir.as_str(), target);
    let summary_file = summary_path(report_dir.as_str(), target);
    Ok(SuitePlan { token, collection_path, report_dir, command, json_report, summary_file })
}

/// Where a suite run stands: what it is waiting for.
#[derive(Clone, Copy, Debug, PartialEq, Eq)]
pub enum SuiteStage {
    ReadingCollection,
    WritingCollection,
    PreparingReports,
    Running,
    ReadingReport,
    WritingSummary,
    Finished,
}

/// Why a suite run failed.
#[derive(Clone, Copy, Debug, PartialEq, Eq)]
pub enum SuiteFailure {
    /// The collection file could not be read.
    CollectionUnreadable,
    /// The collection is no JSON document.
    CollectionMalformed,
    /// The collection is no JSON object.
    CollectionNotAnObject,
    /// The edited collection could not be turned into text.
    CollectionUnwritable,
    /// The collection file could not be written.
    CollectionNotWritten,
    /// The report directory could not be made.
    ReportsNotPrepared,
    /// The runner could not be launched.
    RunnerNotLaunched,
    /// The runner ended with an exit code other than 0.
    TestsFailed,
}

/// What the caller reports back.
#[derive(Clone, Debug, PartialEq, Eq)]
pub enum SuiteEvent {
    /// The text of the collection file; none where it could not be read.
    CollectionRead(Option<String>),
    CollectionWritten(bool),
    ReportsPrepared(bool),
    SuiteEnded(TaskOutcome),
    /// The text of the JSON report; none where there is no such file.
    ReportRead(Option<String>),
    SummaryWritten(bool),
}

/// What the caller does next.
#[derive(Debug, PartialEq, Eq)]
pub enum SuiteAction {
    /// Read the file at this path.
    ReadCollection(String),
    WriteCollection { path: String, text: String },
    /// Make sure that this directory exists.
    PrepareReports(String),
    RunSuite(CommandDescriptor),
    /// Read the file at this path, if it exists.
    ReadReport(String),
    WriteSummary { path: String, text: String },
    Finish(Result<(), SuiteFailure>),
    /// The event answers no action that is in flight; nothing changed.
    Rejected,
}

/// The state of one suite run.
#[derive(Clone, Debug, PartialEq, Eq)]
pub struct SuiteRun {
    pub target: String,
    pub plan: SuitePlan,
    pub stage: SuiteStage,
    /// The exit code of the runner, once it has ended.
    pub exit_code: i32,
}

/// What a [`SuiteEvent`] holds.
pub ghost enum SuiteEventModel {
    CollectionRead(Option<Seq<char>>),
    CollectionWritten(bool),
    ReportsPrepared(bool),
    SuiteEnded(TaskOutcome),
    ReportRead(Option<Seq<char>>),
    SummaryWritten(bool),
}

/// What a [`SuiteAction`] holds.
pub ghost enum SuiteActionModel {
    ReadCollection(Seq<char>),
    WriteCollection { path: Seq<char>, text: Seq<char> },
    PrepareReports(Seq<char>),
    RunSuite(CommandLine),
    ReadReport(Seq<char>),
    WriteSummary { path: Seq<char>, text: Seq<char> },
    Finish(Result<(), SuiteFailure>),
    Rejected,
}

/// What a [`SuiteRun`] holds.
pub ghost struct SuiteRunModel {
    pub target: Seq<char>,
    pub plan: SuitePlanModel,
    pub stage: SuiteStage,
    pub exit_code: i32,
}

/// The text, where one is given.
pub open spec fn optional_text(text: Option<String>) -> Option<Seq<char>> {
    match text {
        Some(given) => Some(given@),
        None => None,
    }
}

impl View for SuiteEvent {
    type V = SuiteEventModel;

    open spec fn view(&self) -> SuiteEventModel {
        match self {
            SuiteEvent::CollectionRead(content) => SuiteEventModel::CollectionRead(
                optional_text(*content),
            ),
            SuiteEvent::CollectionWritten(done) => SuiteEventModel::CollectionWritten(*done),
            SuiteEvent::ReportsPrepared(done) => SuiteEventModel::ReportsPrepared(*done),
            SuiteEvent::SuiteEnded(outcome) => SuiteEventModel::SuiteEnded(*outcome),
            SuiteEvent::ReportRead(content) => SuiteEventModel::ReportRead(optional_text(*content)),
            SuiteEvent::SummaryWritten(done) => SuiteEventModel::SummaryWritten(*done),
        }
    }
}

impl View for SuiteAction {
    type V = SuiteActionModel;

    open spec fn view(&self) -> SuiteActionModel {
        match self {
            SuiteAction::ReadCollection(path) => SuiteActionModel::ReadCollection(path@),
            SuiteAction::WriteCollection { path, text } => SuiteActionModel::WriteCollection {
                path: path@,
                text: text@,
            },
            SuiteAction::PrepareReports(directory) => SuiteActionModel::PrepareReports(directory@),
            SuiteAction::RunSuite(command) => SuiteActionModel::RunSuite(command@),
            SuiteAction::ReadReport(path) => SuiteActionModel::ReadReport(path@),
            SuiteAction::WriteSummary { path, text } => SuiteActionModel::WriteSummary {
                path: path@,
                text: text@,
            },
            SuiteAction::Finish(verdict) => SuiteActionModel::Finish(*verdict),
            SuiteAction::Rejected => SuiteActionModel::Rejected,
        }
    }
}

impl View for SuiteRun {
    type V = SuiteRunModel;

    open spec fn view(&self) -> SuiteRunModel {
        SuiteRunModel {
            target: self.target@,
            plan: self.plan@,
            stage: self.stage,
            exit_code: self.exit_code,
        }
    }
}

/// The verdict of a run whose runner ended with `exit_code`.
pub open spec fn verdict_of(exit_code: i32) -> Result<(), SuiteFailure> {
    if exit_code == 0 {
        Ok(())
    } else {
        Err(SuiteFailure::TestsFailed)
    }
}

/// The state moved to another stage.
pub open spec fn at_stage(state: SuiteRunModel, stage: SuiteStage) -> SuiteRunModel {
    SuiteRunModel { stage, ..state }
}

/// The run ended by a failure.
pub open spec fn failed(state: SuiteRunModel, failure: SuiteFailure) -> (
    SuiteRunModel,
    SuiteActionModel,
) {
    (at_stage(state, SuiteStage::Finished), SuiteActionModel::Finish(Err(failure)))
}

/// The run ended with the verdict that the exit code of the runner gives.
pub open spec fn concluded(state: SuiteRunModel) -> (SuiteRunModel, SuiteActionModel) {
    (
        at_stage(state, SuiteStage::Finished),
        SuiteActionModel::Finish(verdict_of(state.exit_code)),
    )
}

/// The transition that an event causes. The runner is launched only once the
/// collection with the token in it is written and the report directory is
/// there; a collection that cannot be edited ends the run before that. Once
/// the runner has ended, its exit code decides the run: a summary follows
/// where a report is found that can be read, and nothing that happens to the
/// summary changes the verdict.
pub open spec fn suite_step(state: SuiteRunModel, event: SuiteEventModel) -> (
    SuiteRunModel,
    SuiteActionModel,
) {
    match (state.stage, event) {
        (SuiteStage::ReadingCollection, SuiteEventModel::CollectionRead(None)) => failed(
            state,
            SuiteFailure::CollectionUnreadable,
        ),
        (SuiteStage::ReadingCollection, SuiteEventModel::CollectionRead(Some(content))) => match token_injection(
            content,
            state.plan.token,
        ) {
            InjectionModel::Written(text) => (
                at_stage(state, SuiteStage::WritingCollection),
                SuiteActionModel::WriteCollection { path: state.plan.collection_path, text },
            ),
            InjectionModel::Malformed => failed(state, SuiteFailure::CollectionMalformed),
            InjectionModel::NotAnObject => failed(state, SuiteFailure::CollectionNotAnObject),
            InjectionModel::Unwritable => failed(state, SuiteFailure::CollectionUnwritable),
        },
        (SuiteStage::WritingCollection, SuiteEventModel::CollectionWritten(done)) => if done {
            (
                at_stage(state, SuiteStage::PreparingReports),
                SuiteActionModel::PrepareReports(state.plan.report_dir),
            )
        } else {
            failed(state, SuiteFailure::CollectionNotWritten)
        },
        (SuiteStage::PreparingReports, SuiteEventModel::ReportsPrepared(done)) => if done {
            (at_stage(state, SuiteStage::Running), SuiteActionModel::RunSuite(state.plan.command))
        } else {
            failed(state, SuiteFailure::ReportsNotPrepared)
        },
        (SuiteStage::Running, SuiteEventModel::SuiteEnded(outcome)) => match outcome {
            TaskOutcome::Exited(code) => (
                SuiteRunModel { stage: SuiteStage::ReadingReport, exit_code: code, ..state },
                SuiteActionModel::ReadReport(state.plan.json_report),
            ),
            TaskOutcome::Errored => failed(state, SuiteFailure::RunnerNotLaunched),
        },
        (SuiteStage::ReadingReport, SuiteEventModel::ReportRead(content)) => match summary_of_text(
            state.target,
            content,
        ) {
            Some(summary) => if summary.report_found {
                (
                    at_stage(state, SuiteStage::WritingSummary),
                    SuiteActionModel::WriteSummary {
                        path: state.plan.summary_file,
                        text: summary_text(summary),
                    },
                )
            } else {
                concluded(state)
            },
            None => concluded(state),
        },
        (SuiteStage::WritingSummary, SuiteEventModel::SummaryWritten(_)) => concluded(state),
        _ => (state, SuiteActionModel::Rejected),
    }
}

/// The runner is never launched on a collection without the token: it is
/// launched only in answer to the report directory being there, that
/// directory is asked for only in answer to the collection being written, and
/// what is written is only ever the collection that was read with the token
/// set in it. A collection that cannot be read or edited ends the run.
pub proof fn runner_is_launched_only_with_the_token_injected(
    state: SuiteRunModel,
    event: SuiteEventModel,
)
    ensures
        suite_step(state, event).1 is RunSuite ==> state.stage is PreparingReports && event
            == SuiteEventModel::ReportsPrepared(true),
        suite_step(state, event).1 is PrepareReports ==> state.stage is WritingCollection && event
            == SuiteEventModel::CollectionWritten(true),
        suite_step(state, event).1 matches SuiteActionModel::WriteCollection { path, text } ==> {
            &&& state.stage is ReadingCollection
            &&& path == state.plan.collection_path
            &&& event matches SuiteEventModel::CollectionRead(Some(content))
            &&& token_injection(content, state.plan.token) == InjectionModel::Written(text)
        },
        forall|content: Seq<char>|
            state.stage is ReadingCollection && event == SuiteEventModel::CollectionRead(
                Some(content),
            ) && !(token_injection(content, state.plan.token) is Written) ==> (suite_step(
                state,
                event,
            ).1 matches SuiteActionModel::Finish(Err(_))),
        suite_step(state, event).0.plan == state.plan,
        suite_step(state, event).0.target == state.target,
{
}

/// The verdict of a run whose runner has ended, after the report was looked
/// for and, where a summary was made, after it was written or not.
pub open spec fn verdict_after_report(
    state: SuiteRunModel,
    report: Option<Seq<char>>,
    written: bool,
) -> SuiteActionModel {
    let (next, action) = suite_step(state, SuiteEventModel::ReportRead(report));
    if action is WriteSummary {
        suite_step(next, SuiteEventModel::SummaryWritten(written)).1
    } else {
        action
    }
}

/// Once the runner has ended, the verdict is what its exit code says: no
/// report, a report that cannot be read, and a summary that cannot be written
/// all leave it as it is.
pub proof fn summary_never_changes_the_verdict(
    state: SuiteRunModel,
    report: Option<Seq<char>>,
    written: bool,
)
    requires
        state.stage is ReadingReport,
    ensures
        verdict_after_report(state, report, written) == SuiteActionModel::Finish(
            verdict_of(state.exit_code),
        ),
        report is None ==> suite_step(state, SuiteEventModel::ReportRead(report)).1
            == SuiteActionModel::Finish(verdict_of(state.exit_code)),
{
}

/// How a suite run begins: with its plan made, and the collection to be read.
pub open spec fn suite_start(
    target: Seq<char>,
    token: Option<Seq<char>>,
    requested_dir: Option<Seq<char>>,
) -> Result<(SuiteRunModel, SuiteActionModel), SuiteError> {
    match suite_plan(target, token, requested_dir) {
        Ok(plan) => Ok(
            (
                SuiteRunModel { target, plan, stage: SuiteStage::ReadingCollection, exit_code: 0 },
                SuiteActionModel::ReadCollection(plan.collection_path),
            ),
        ),
        Err(error) => Err(error),
    }
}

/// What the start of a suite run holds.
pub open spec fn start_model(start: Result<(SuiteRun, SuiteAction), SuiteError>) -> Result<
    (SuiteRunModel, SuiteActionModel),
    SuiteError,
> {
    match start {
        Ok(begun) => Ok((begun.0@, begun.1@)),
        Err(error) => Err(error),
    }
}

/// Begins the run of the suite `target`. Without a token, or for a name that
/// is no suite, nothing is begun.
pub fn start_newman_testing(target: &str, token: Option<&str>, requested_dir: Option<&str>) -> (start:
    Result<(SuiteRun, SuiteAction), SuiteError>)
    ensures
        start_model(start) == suite_start(target@, text_of(token), text_of(requested_dir)),
{
    match plan_suite(target, token, requested_dir) {
        Ok(plan) => {
            let action = SuiteAction::ReadCollection(plan.collection_path.clone());
            let state = SuiteRun {
                target: String::from_str(target),
                plan,
                stage: SuiteStage::ReadingCollection,
                exit_code: 0,
            };
            Ok((state, action))
        },
        Err(error) => Err(error),
    }
}

fn fail(state: SuiteRun, failure: SuiteFailure) -> (next: (SuiteRun, SuiteAction))
    ensures
        (next.0@, next.1@) == failed(state@, failure),
{
    (
        SuiteRun {
            target: state.target,
            plan: state.plan,
            stage: SuiteStage::Finished,
            exit_code: state.exit_code,
        },
        SuiteAction::Finish(Err(failure)),
    )
}

fn conclude(state: SuiteRun) -> (next: (SuiteRun, SuiteAction))
    ensures
        (next.0@, next.1@) == concluded(state@),
{
    let verdict = if state.exit_code == 0 {
        Ok(())
    } else {
        Err(SuiteFailure::TestsFailed)
    };
    (
        SuiteRun {
            target: state.target,
            plan: state.plan,
            stage: SuiteStage::Finished,
            exit_code: state.exit_code,
        },
        SuiteAction::Finish(verdict),
    )
}

fn advance(state: SuiteRun, stage: SuiteStage, action: SuiteAction) -> (next: (
    SuiteRun,
    SuiteAction,
))
    ensures
        next.0@ == at_stage(state@, stage),
        next.1 == action,
{
    (
        SuiteRun { target: state.target, plan: state.plan, stage, exit_code: state.exit_code },
        action,
    )
}

impl SuiteRun {
    /// Takes what the caller reports of the action in flight and decides what
    /// follows.
    pub fn step(self, event: SuiteEvent) -> (next: (SuiteRun, SuiteAction))
        ensures
            (next.0@, next.1@) == suite_step(self@, event@),
    {
        match self.stage {
            SuiteStage::ReadingCollection => match event {
                SuiteEvent::CollectionRead(None) => fail(self, SuiteFailure::CollectionUnreadable),
                SuiteEvent::CollectionRead(Some(content)) => {
                    let edited = inject_auth_token_into_collection(
                        content.as_str(),
                        self.plan.token.as_str(),
                    );
                    match edited {
                        Ok(text) => {
                            let path = self.plan.collection_path.clone();
                            advance(
                                self,
                                SuiteStage::WritingCollection,
                                SuiteAction::WriteCollection { path, text },
                            )
                        },
                        Err(CollectionError::Malformed(_)) => fail(
                            self,
                            SuiteFailure::CollectionMalformed,
                        ),
                        Err(CollectionError::NotAnObject) => fail(
                            self,
                            SuiteFailure::CollectionNotAnObject,
                        ),
                        Err(CollectionError::Unwritable(_)) => fail(
                            self,
                            SuiteFailure::CollectionUnwritable,
                        ),
                    }
                },
                _ => (self, SuiteAction::Rejected),
            },
            SuiteStage::WritingCollection => match event {
                SuiteEvent::CollectionWritten(done) => if done {
                    let directory = self.plan.report_dir.clone();
                    advance(
                        self,
                        SuiteStage::PreparingReports,
                        SuiteAction::PrepareReports(directory),
                    )
                } else {
                    fail(self, SuiteFailure::CollectionNotWritten)
                },
                _ => (self, SuiteAction::Rejected),
            },
            SuiteStage::PreparingReports => match event {
                SuiteEvent::ReportsPrepared(done) => if done {
                    let command = self.plan.command.clone();
                    advance(self, SuiteStage::Running, SuiteAction::RunSuite(command))
                } else {
                    fail(self, SuiteFailure::ReportsNotPrepared)
                },
                _ => (self, SuiteAction::Rejected),
            },
            SuiteStage::Running => match event {
                SuiteEvent::SuiteEnded(TaskOutcome::Exited(code)) => {
                    let path = self.plan.json_report.clone();
                    (
                        SuiteRun {
                            target: self.target,
                            plan: self.plan,
                            stage: SuiteStage::ReadingReport,
                            exit_code: code,
                        },
                        SuiteAction::ReadReport(path),
                    )
                },
                SuiteEvent::SuiteEnded(TaskOutcome::Errored) => fail(
                    self,
                    SuiteFailure::RunnerNotLaunched,
                ),
                _ => (self, SuiteAction::Rejected),
            },
            SuiteStage::ReadingReport => match event {
                SuiteEvent::ReportRead(content) => {
                    let summary = match &content {
                        Some(text) => write_assertion_summary(
                            self.target.as_str(),
                            Some(text.as_str()),
                        ),
                        None => write_assertion_summary(self.target.as_str(), None),
                    };
                    match summary {
                        Ok(found) => if found.report_found {
                            let path = self.plan.summary_file.clone();
                            let text = found.render();
                            advance(
                                self,
                                SuiteStage::WritingSummary,
                                SuiteAction::WriteSummary { path, text },
                            )
                        } else {
                            conclude(self)
                        },
                        Err(_) => conclude(self),
                    }
                },
                _ => (self, SuiteAction::Rejected),
            },
            SuiteStage::WritingSummary => match event {
                SuiteEvent::SummaryWritten(_) => conclude(self),
                _ => (self, SuiteAction::Rejected),
            },
            SuiteStage::Finished => (self, SuiteAction::Rejected),
        }
    }
}

} // verus!
