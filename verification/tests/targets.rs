use task_runner::targets::all_targets;
use task_runner::targets::check_target;
use task_runner::targets::directory_for;
use task_runner::targets::find_prettier_config;
use task_runner::targets::format_target;
use task_runner::targets::parse_selection;
use task_runner::targets::prettier_config_candidates;
use task_runner::targets::target_name;
use task_runner::targets::Selection;
use task_runner::targets::Target;
use task_runner::targets::TargetError;

#[test]
fn selection_reads_every_known_name() {
    assert_eq!(parse_selection("all"), Ok(Selection::All));
    assert_eq!(parse_selection("packages"), Ok(Selection::Single(Target::Packages)));
    assert_eq!(parse_selection("website"), Ok(Selection::Single(Target::Website)));
    assert_eq!(parse_selection("cv"), Ok(Selection::Single(Target::Cv)));
    assert_eq!(parse_selection("api"), Ok(Selection::Single(Target::Api)));
}

#[test]
fn selection_refuses_other_names() {
    assert_eq!(parse_selection("frontend"), Err(TargetError::InvalidTarget));
    assert_eq!(parse_selection("Api"), Err(TargetError::InvalidTarget));
    assert_eq!(parse_selection(" api"), Err(TargetError::InvalidTarget));
    assert_eq!(parse_selection(""), Err(TargetError::InvalidTarget));
}

#[test]
fn names_and_selections_agree() {
    for target in all_targets() {
        assert_eq!(parse_selection(target_name(target)), Ok(Selection::Single(target)));
    }
    assert_eq!(
        all_targets(),
        vec![Target::Packages, Target::Website, Target::Cv, Target::Api]
    );
}

#[test]
fn directories_of_the_formatter_targets() {
    assert_eq!(directory_for("packages"), Some("packages/components/**"));
    assert_eq!(directory_for("website"), Some("sites/arolariu.ro/**"));
    assert_eq!(directory_for("cv"), Some("sites/cv.arolariu.ro/**"));
    assert_eq!(directory_for("api"), None);
    assert_eq!(directory_for("all"), None);
}

#[test]
fn check_command_of_the_api() {
    let quiet = check_target("api", true, None).unwrap();
    assert_eq!(quiet.program, "dotnet");
    assert_eq!(
        quiet.args,
        vec!["format", "arolariu.slnx", "--verify-no-changes", "--verbosity", "quiet"]
    );
    assert_eq!(quiet.label, "🔍 Checking .NET API");
    let detailed = check_target("api", false, Some("ignored")).unwrap();
    assert_eq!(
        detailed.args,
        vec!["format", "arolariu.slnx", "--verify-no-changes", "--verbosity", "detailed"]
    );
}

#[test]
fn check_command_of_a_formatter_target() {
    let command = check_target("website", true, Some("prettier.config.ts")).unwrap();
    assert_eq!(command.program, "node");
    assert_eq!(
        command.args,
        vec![
            "node_modules/prettier/bin/prettier.cjs",
            "--check",
            "sites/arolariu.ro/**",
            "--cache",
            "--config",
            "prettier.config.ts",
            "--config-precedence",
            "prefer-file",
            "--check-ignore-pragma",
        ]
    );
    assert_eq!(command.label, "🔍 Checking website");
}

#[test]
fn fix_command_of_the_api() {
    let command = format_target("api", true, None).unwrap();
    assert_eq!(command.program, "dotnet");
    assert_eq!(command.args, vec!["format", "arolariu.slnx", "--verbosity", "quiet"]);
    assert_eq!(command.label, "🔧 Formatting .NET API");
}

#[test]
fn fix_command_of_a_formatter_target() {
    let command = format_target("cv", false, Some(".prettierrc.json")).unwrap();
    assert_eq!(command.program, "node");
    assert_eq!(
        command.args,
        vec![
            "node_modules/prettier/bin/prettier.cjs",
            "--write",
            "sites/cv.arolariu.ro/**",
            "--cache",
            "--config",
            ".prettierrc.json",
            "--config-precedence",
            "prefer-file",
            "--check-ignore-pragma",
        ]
    );
    assert_eq!(command.label, "✨ Formatting cv");
}

#[test]
fn target_without_directory_is_unmapped() {
    assert_eq!(check_target("all", true, Some(".prettierrc")), Err(TargetError::UnmappedTarget));
    assert_eq!(format_target("docs", false, Some(".prettierrc")), Err(TargetError::UnmappedTarget));
    assert_eq!(check_target("", true, None), Err(TargetError::UnmappedTarget));
}

#[test]
fn formatter_target_without_configuration_has_no_command() {
    assert_eq!(check_target("packages", true, None), Err(TargetError::MissingConfig));
    assert_eq!(format_target("packages", true, None), Err(TargetError::MissingConfig));
}

#[test]
fn configuration_candidates_in_order() {
    assert_eq!(
        prettier_config_candidates(),
        vec![
            "prettier.config.ts",
            ".prettierrc",
            ".prettierrc.json",
            ".prettierrc.js",
            ".prettierrc.cjs",
            "prettier.config.js",
            "prettier.config.cjs",
        ]
    );
}

#[test]
fn first_configuration_that_exists_is_taken() {
    let present = vec![false, false, true, false, true, false, false];
    assert_eq!(find_prettier_config(&present), Ok(".prettierrc.json".to_string()));
    let first = vec![true; 7];
    assert_eq!(find_prettier_config(&first), Ok("prettier.config.ts".to_string()));
    let last = vec![false, false, false, false, false, false, true];
    assert_eq!(find_prettier_config(&last), Ok("prettier.config.cjs".to_string()));
}

#[test]
fn no_configuration_is_an_error() {
    assert_eq!(find_prettier_config(&vec![false; 7]), Err(TargetError::MissingConfig));
    assert_eq!(find_prettier_config(&vec![]), Err(TargetError::MissingConfig));
    assert_eq!(find_prettier_config(&vec![false, false]), Err(TargetError::MissingConfig));
    let beyond = vec![false, false, false, false, false, false, false, true];
    assert_eq!(find_prettier_config(&beyond), Err(TargetError::MissingConfig));
}
