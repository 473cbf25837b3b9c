//! The registry of targets: their names and the commands that check and fix
//! each of them.

use crate::executor::CommandDescriptor;
use crate::executor::CommandLine;
use crate::text::push_text;
use crate::text::same_text;
use vstd::prelude::*;

verus! {

/// A named unit of work of the repository.
#[derive(Clone, Copy, Debug, PartialEq, Eq)]
pub enum Target {
    Packages,
    Website,
    Cv,
    Api,
}

/// What a target argument selects.
#[derive(Clone, Copy, Debug, PartialEq, Eq)]
pub enum Selection {
    All,
    Single(Target),
}

/// Every target, in the order in which a run over all of them reports.
pub open spec fn every_target() -> Seq<Target> {
    seq![Target::Packages, Target::Website, Target::Cv, Target::Api]
}

/// Every target, in the order in which a run over all of them reports.
pub fn all_targets() -> (targets: Vec<Target>)
    ensures
        targets@ == every_target(),
{
    let mut targets: Vec<Target> = Vec::new();
    targets.push(Target::Packages);
    targets.push(Target::Website);
    targets.push(Target::Cv);
    targets.push(Target::Api);
    assert(targets@ =~= every_target());
    targets
}

/// Why a target gives no command.
#[derive(Clone, Copy, Debug, PartialEq, Eq)]
pub enum TargetError {
    /// The name is not that of a target.
    InvalidTarget,
    /// The target has no directory that the formatter could be pointed at.
    UnmappedTarget,
    /// No formatter configuration file was found.
    MissingConfig,
}

/// What a target argument selects, where it names something.
pub open spec fn selection_named(name: Seq<char>) -> Option<Selection> {
    if name == "all"@ {
        Some(Selection::All)
    } else if name == "packages"@ {
        Some(Selection::Single(Target::Packages))
    } else if name == "website"@ {
        Some(Selection::Single(Target::Website))
    } else if name == "cv"@ {
        Some(Selection::Single(Target::Cv))
    } else if name == "api"@ {
        Some(Selection::Single(Target::Api))
    } else {
        None
    }
}

/// The name of a target.
pub open spec fn name_of(target: Target) -> Seq<char> {
    match target {
        Target::Packages => "packages"@,
        Target::Website => "website"@,
        Target::Cv => "cv"@,
        Target::Api => "api"@,
    }
}

/// Reads a target argument. An unknown name is refused before anything runs.
pub fn parse_selection(name: &str) -> (selection: Result<Selection, TargetError>)
    ensures
        match selection {
            Ok(selected) => selection_named(name@) == Some(selected),
            Err(error) => selection_named(name@) is None && error == TargetError::InvalidTarget,
        },
{
    if same_text(name, "all") {
        Ok(Selection::All)
    } else if same_text(name, "packages") {
        Ok(Selection::Single(Target::Packages))
    } else if same_text(name, "website") {
        Ok(Selection::Single(Target::Website))
    } else if same_text(name, "cv") {
        Ok(Selection::Single(Target::Cv))
    } else if same_text(name, "api") {
        Ok(Selection::Single(Target::Api))
    } else {
        Err(TargetError::InvalidTarget)
    }
}

/// The name of a target.
pub fn target_name(target: Target) -> (name: &'static str)
    ensures
        name@ == name_of(target),
{
    match target {
        Target::Packages => "packages",
        Target::Website => "website",
        Target::Cv => "cv",
        Target::Api => "api",
    }
}

/// The files that the formatter is pointed at for a target; none for a target
/// that the common formatter does not handle.
pub open spec fn directory_of(name: Seq<char>) -> Option<Seq<char>> {
    if name == "packages"@ {
        Some("packages/components/**"@)
    } else if name == "website"@ {
        Some("sites/arolariu.ro/**"@)
    } else if name == "cv"@ {
        Some("sites/cv.arolariu.ro/**"@)
    } else {
        None
    }
}

/// The files that the formatter is pointed at for the target `name`.
pub fn directory_for(name: &str) -> (directory: Option<&'static str>)
    ensures
        match directory {
            Some(path) => directory_of(name@) == Some(path@),
            None => directory_of(name@) is None,
        },
{
    if same_text(name, "packages") {
        Some("packages/components/**")
    } else if same_text(name, "website") {
        Some("sites/arolariu.ro/**")
    } else if same_text(name, "cv") {
        Some("sites/cv.arolariu.ro/**")
    } else {
        None
    }
}

/// The names under which the formatter configuration may be kept, in the
/// order in which they are tried.
pub open spec fn config_candidates() -> Seq<Seq<char>> {
    seq![
        "prettier.config.ts"@,
        ".prettierrc"@,
        ".prettierrc.json"@,
        ".prettierrc.js"@,
        ".prettierrc.cjs"@,
        "prettier.config.js"@,
        "prettier.config.cjs"@,
    ]
}

/// The names under which the formatter configuration may be kept, in the
/// order in which they are tried.
pub fn prettier_config_candidates() -> (names: Vec<String>)
    ensures
        names.deep_view() == config_candidates(),
{
    let mut names: Vec<String> = Vec::new();
    assert(names.deep_view() =~= Seq::<Seq<char>>::empty());
    push_text(&mut names, "prettier.config.ts");
    push_text(&mut names, ".prettierrc");
    push_text(&mut names, ".prettierrc.json");
    push_text(&mut names, ".prettierrc.js");
    push_text(&mut names, ".prettierrc.cjs");
    push_text(&mut names, "prettier.config.js");
    push_text(&mut names, "prettier.config.cjs");
    assert(names.deep_view() =~= config_candidates());
    names
}

/// The first position at or after `from` whose file is present, or the length
/// of `present` where none is.
pub open spec fn first_present(present: Seq<bool>, from: int) -> int
    decreases present.len() - from,
{
    if 0 <= from < present.len() && !present[from] {
        first_present(present, from + 1)
    } else {
        from
    }
}

/// The configuration file that is used: the first candidate that is present.
/// `present[i]` says whether the candidate at `i` exists; a candidate without
/// an entry counts as absent.
pub open spec fn chosen_config(present: Seq<bool>) -> Option<Seq<char>> {
    let index = first_present(present, 0);
    if 0 <= index < present.len() && index < config_candidates().len() {
        Some(config_candidates()[index])
    } else {
        None
    }
}

/// The configuration file to use, given which of the candidates exist.
pub fn find_prettier_config(present: &Vec<bool>) -> (config: Result<String, TargetError>)
    ensures
        match config {
            Ok(path) => chosen_config(present@) == Some(path@),
            Err(error) => chosen_config(present@) is None && error == TargetError::MissingConfig,
        },
{
    let mut names = prettier_config_candidates();
    let mut index: usize = 0;
    while index < present.len() && !present[index]
        invariant
            index <= present.len(),
            first_present(present@, 0) == first_present(present@, index as int),
        decreases present.len() - index,
    {
        index += 1;
    }
    if index < present.len() && index < names.len() {
        let ghost all = names.deep_view();
        let path = names.swap_remove(index);
        assert(path@ == all[index as int]);
        Ok(path)
    } else {
        Err(TargetError::MissingConfig)
    }
}

/// How much the API formatter says: little when its output is held back.
pub open spec fn verbosity(hide_output: bool) -> Seq<char> {
    if hide_output {
        "quiet"@
    } else {
        "detailed"@
    }
}

/// The arguments of one run of the common formatter.
pub open spec fn formatter_args(action: Seq<char>, directory: Seq<char>, config: Seq<char>) -> Seq<
    Seq<char>,
> {
    seq![
        "node_modules/prettier/bin/prettier.cjs"@,
        action,
        directory,
        "--cache"@,
        "--config"@,
        config,
        "--config-precedence"@,
        "prefer-file"@,
        "--check-ignore-pragma"@,
    ]
}

/// The command that checks a target without changing anything.
pub open spec fn check_command(target: Seq<char>, hide_output: bool, config: Option<Seq<char>>) -> Result<
    CommandLine,
    TargetError,
> {
    if target == "api"@ {
        Ok(
            CommandLine {
                program: "dotnet"@,
                args: seq![
                    "format"@,
                    "arolariu.slnx"@,
                    "--verify-no-changes"@,
                    "--verbosity"@,
                    verbosity(hide_output),
                ],
                label: "🔍 Checking .NET API"@,
            },
        )
    } else {
        match directory_of(target) {
            None => Err(TargetError::UnmappedTarget),
            Some(directory) => match config {
                None => Err(TargetError::MissingConfig),
                Some(path) => Ok(
                    CommandLine {
                        program: "node"@,
                        args: formatter_args("--check"@, directory, path),
                        label: "🔍 Checking "@ + target,
                    },
                ),
            },
        }
    }
}

/// The command that rewrites a target in place.
pub open spec fn fix_command(target: Seq<char>, hide_output: bool, config: Option<Seq<char>>) -> Result<
    CommandLine,
    TargetError,
> {
    if target == "api"@ {
        Ok(
            CommandLine {
                program: "dotnet"@,
                args: seq!["format"@, "arolariu.slnx"@, "--verbosity"@, verbosity(hide_output)],
                label: "🔧 Formatting .NET API"@,
            },
        )
    } else {
        match directory_of(target) {
            None => Err(TargetError::UnmappedTarget),
            Some(directory) => match config {
                None => Err(TargetError::MissingConfig),
                Some(path) => Ok(
                    CommandLine {
                        program: "node"@,
                        args: formatter_args("--write"@, directory, path),
                        label: "✨ Formatting "@ + target,
                    },
                ),
            },
        }
    }
}

/// The path of the configuration, where one was found.
pub open spec fn config_text(config: Option<&str>) -> Option<Seq<char>> {
    match config {
        Some(path) => Some(path@),
        None => None,
    }
}

/// What the command of a target holds, or why there is none.
pub open spec fn command_line(command: Result<CommandDescriptor, TargetError>) -> Result<
    CommandLine,
    TargetError,
> {
    match command {
        Ok(descriptor) => Ok(descriptor@),
        Err(error) => Err(error),
    }
}

fn verbosity_for(hide_output: bool) -> (level: &'static str)
    ensures
        level@ == verbosity(hide_output),
{
    if hide_output {
        "quiet"
    } else {
        "detailed"
    }
}

fn formatter_command(action: &str, directory: &str, config: &str, label: String) -> (command:
    CommandDescriptor)
    ensures
        command@ == (CommandLine {
            program: "node"@,
            args: formatter_args(action@, directory@, config@),
            label: label@,
        }),
{
    let mut args: Vec<String> = Vec::new();
    assert(args.deep_view() =~= Seq::<Seq<char>>::empty());
    push_text(&mut args, "node_modules/prettier/bin/prettier.cjs");
    push_text(&mut args, action);
    push_text(&mut args, directory);
    push_text(&mut args, "--cache");
    push_text(&mut args, "--config");
    push_text(&mut args, config);
    push_text(&mut args, "--config-precedence");
    push_text(&mut args, "prefer-file");
    push_text(&mut args, "--check-ignore-pragma");
    assert(args.deep_view() =~= formatter_args(action@, directory@, config@));
    CommandDescriptor { program: String::from_str("node"), args, label }
}

/// The check command of the target named `target`: which program to run, with
/// which arguments, under which label. `config` is the formatter
/// configuration that was found. A target without a directory is refused
/// here, before anything is launched.
pub fn check_target(target: &str, hide_output: bool, config: Option<&str>) -> (command: Result<
    CommandDescriptor,
    TargetError,
>)
    ensures
        command_line(command) == check_command(target@, hide_output, config_text(config)),
{
    if same_text(target, "api") {
        let mut args: Vec<String> = Vec::new();
        assert(args.deep_view() =~= Seq::<Seq<char>>::empty());
        push_text(&mut args, "format");
        push_text(&mut args, "arolariu.slnx");
        push_text(&mut args, "--verify-no-changes");
        push_text(&mut args, "--verbosity");
        push_text(&mut args, verbosity_for(hide_output));
        assert(args.deep_view() =~= seq![
            "format"@,
            "arolariu.slnx"@,
            "--verify-no-changes"@,
            "--verbosity"@,
            verbosity(hide_output),
        ]);
        return Ok(
            CommandDescriptor {
                program: String::from_str("dotnet"),
                args,
                label: String::from_str("🔍 Checking .NET API"),
            },
        );
    }
    match directory_for(target) {
        None => Err(TargetError::UnmappedTarget),
        Some(directory) => match config {
            None => Err(TargetError::MissingConfig),
            Some(path) => {
                let mut label = String::from_str("🔍 Checking ");
                label.append(target);
                Ok(formatter_command("--check", directory, path, label))
            },
        },
    }
}

/// The fix command of the target named `target`.
pub fn format_target(target: &str, hide_output: bool, config: Option<&str>) -> (command: Result<
    CommandDescriptor,
    TargetError,
>)
    ensures
        command_line(command) == fix_command(target@, hide_output, config_text(config)),
{
    if same_text(target, "api") {
        let mut args: Vec<String> = Vec::new();
        assert(args.deep_view() =~= Seq::<Seq<char>>::empty());
        push_text(&mut args, "format");
        push_text(&mut args, "arolariu.slnx");
        push_text(&mut args, "--verbosity");
        push_text(&mut args, verbosity_for(hide_output));
        assert(args.deep_view() =~= seq![
            "format"@,
            "arolariu.slnx"@,
            "--verbosity"@,
            verbosity(hide_output),
        ]);
        return Ok(
            CommandDescriptor {
                program: String::from_str("dotnet"),
                args,
                label: String::from_str("🔧 Formatting .NET API"),
            },
        );
    }
    match directory_for(target) {
        None => Err(TargetError::UnmappedTarget),
        Some(directory) => match config {
            None => Err(TargetError::MissingConfig),
            Some(path) => {
                let mut label = String::from_str("✨ Formatting ");
                label.append(target);
                Ok(formatter_command("--write", directory, path, label))
            },
        },
    }
}

} // verus!
