//! The linter: which targets it takes, how it is invoked, and what its exit
//! code says.

use crate::executor::exit_code_of;
use crate::executor::normal_exit_code;
use crate::executor::CommandDescriptor;
use crate::executor::CommandLine;
use crate::text::push_text;
use crate::text::same_text;
use vstd::prelude::*;

verus! {

/// Why linting did not succeed.
#[derive(Clone, Copy, Debug, PartialEq, Eq)]
pub enum LintError {
    /// The name is not that of something the linter takes.
    InvalidTarget,
    /// The linter found faults, or did not end with an exit code.
    Failed,
}

/// The linter takes every formatter target but the API, and all of them at
/// once.
pub open spec fn is_lint_target(name: Seq<char>) -> bool {
    name == "all"@ || name == "packages"@ || name == "website"@ || name == "cv"@
}

/// Linting everything takes long enough to warn about.
pub open spec fn is_slow_target(name: Seq<char>) -> bool {
    name == "all"@
}

/// The invocation of the linter on a target.
pub open spec fn lint_command(target: Seq<char>) -> CommandLine {
    CommandLine {
        program: "node"@,
        args: seq!["scripts/lint.ts"@, target],
        label: "Running ESLint for: "@ + target,
    }
}

/// The invocation of the linter on `target`. An unknown target is refused
/// before anything runs.
pub fn start_eslint(target: &str) -> (command: Result<CommandDescriptor, LintError>)
    ensures
        match command {
            Ok(found) => is_lint_target(target@) && found@ == lint_command(target@),
            Err(error) => !is_lint_target(target@) && error == LintError::InvalidTarget,
        },
{
    if same_text(target, "all") || same_text(target, "packages") || same_text(target, "website")
        || same_text(target, "cv") {
        Ok(run_eslint_via_node(target))
    } else {
        Err(LintError::InvalidTarget)
    }
}

/// Begins a linting run: the invocation of the linter on `target`, or the
/// refusal of a name that the linter does not take.
pub fn run(target: &str) -> (command: Result<CommandDescriptor, LintError>)
    ensures
        match command {
            Ok(found) => is_lint_target(target@) && found@ == lint_command(target@),
            Err(error) => !is_lint_target(target@) && error == LintError::InvalidTarget,
        },
{
    start_eslint(target)
}

/// The invocation of the linter on `target`.
pub fn run_eslint_via_node(target: &str) -> (command: CommandDescriptor)
    ensures
        command@ == lint_command(target@),
{
    let mut args: Vec<String> = Vec::new();
    assert(args.deep_view() =~= Seq::<Seq<char>>::empty());
    push_text(&mut args, "scripts/lint.ts");
    push_text(&mut args, target);
    assert(args.deep_view() =~= seq!["scripts/lint.ts"@, target@]);
    let mut label = String::from_str("Running ESLint for: ");
    label.append(target);
    CommandDescriptor { program: String::from_str("node"), args, label }
}

/// Whether linting `target` takes long enough to warn about.
pub fn warns_about_duration(target: &str) -> (slow: bool)
    ensures
        slow == is_slow_target(target@),
{
    same_text(target, "all")
}

/// Linting succeeded exactly when the linter exited with code 0.
pub fn lint_verdict(exit_code: Option<i32>) -> (verdict: Result<(), LintError>)
    ensures
        verdict is Ok <==> normal_exit_code(exit_code) == 0,
        verdict is Err ==> verdict == Err::<(), LintError>(LintError::Failed),
{
    if exit_code_of(exit_code) == 0 {
        Ok(())
    } else {
        Err(LintError::Failed)
    }
}

} // verus!
