use task_runner::config::is_azure_infrastructure;
use task_runner::config::is_in_ci;
use task_runner::config::is_production_environment;
use task_runner::config::is_verbose_mode;
use task_runner::config::Configuration;
use task_runner::generate::next_generation_step;
use task_runner::generate::run_generator;
use task_runner::generate::script_name;
use task_runner::generate::selected_generators;
use task_runner::generate::GenerationStep;
use task_runner::generate::Generator;
use task_runner::lint::lint_verdict;
use task_runner::lint::run_eslint_via_node;
use task_runner::lint::start_eslint;
use task_runner::lint::warns_about_duration;
use task_runner::lint::LintError;
use task_runner::orchestrator::TaskOutcome;

#[test]
fn generators_run_in_a_fixed_order() {
    assert_eq!(
        selected_generators(true, true, true, true),
        vec![Generator::Env, Generator::Acks, Generator::I18n, Generator::Gql]
    );
    assert_eq!(selected_generators(false, true, false, true), vec![Generator::Acks, Generator::Gql]);
    assert_eq!(selected_generators(false, false, true, false), vec![Generator::I18n]);
    assert_eq!(selected_generators(false, false, false, false), vec![]);
}

#[test]
fn generator_scripts() {
    assert_eq!(script_name(Generator::Env), "generate.env.ts");
    assert_eq!(script_name(Generator::Acks), "generate.acks.ts");
    assert_eq!(script_name(Generator::I18n), "generate.i18n.ts");
    assert_eq!(script_name(Generator::Gql), "generate.gql.ts");
}

#[test]
fn generator_is_run_by_node() {
    let quiet = run_generator("generate.env.ts", false);
    assert_eq!(quiet.program, "node");
    assert_eq!(quiet.args, vec!["scripts/generate.env.ts"]);
    let verbose = run_generator("generate.gql.ts", true);
    assert_eq!(verbose.args, vec!["scripts/generate.gql.ts", "--verbose"]);
}

#[test]
fn generation_plan_holds_one_command_for_each_flag() {
    let plan = task_runner::generate::run(true, true, false, false, true);
    let scripts: Vec<&str> = plan.iter().map(|command| command.args[0].as_str()).collect();
    assert_eq!(scripts, vec!["scripts/generate.env.ts", "scripts/generate.gql.ts"]);
    assert!(plan.iter().all(|command| command.args.len() == 2 && command.args[1] == "--verbose"));
    assert!(task_runner::generate::run(false, false, false, false, false).is_empty());
}

#[test]
fn generation_goes_on_while_generators_succeed() {
    let plan = vec![Generator::Env, Generator::I18n, Generator::Gql];
    assert_eq!(next_generation_step(&plan, &vec![]), GenerationStep::Run(Generator::Env));
    assert_eq!(
        next_generation_step(&plan, &vec![TaskOutcome::Exited(0)]),
        GenerationStep::Run(Generator::I18n)
    );
    assert_eq!(
        next_generation_step(&plan, &vec![TaskOutcome::Exited(0); 2]),
        GenerationStep::Run(Generator::Gql)
    );
    assert_eq!(
        next_generation_step(&plan, &vec![TaskOutcome::Exited(0); 3]),
        GenerationStep::Done { executed: 3 }
    );
    assert_eq!(next_generation_step(&vec![], &vec![]), GenerationStep::Done { executed: 0 });
}

#[test]
fn first_failing_generator_ends_the_run() {
    let plan = vec![Generator::Env, Generator::I18n, Generator::Gql];
    assert_eq!(
        next_generation_step(&plan, &vec![TaskOutcome::Exited(0), TaskOutcome::Exited(1)]),
        GenerationStep::Failed(Generator::I18n)
    );
    assert_eq!(
        next_generation_step(&plan, &vec![TaskOutcome::Errored]),
        GenerationStep::Failed(Generator::Env)
    );
    assert_eq!(
        next_generation_step(
            &plan,
            &vec![TaskOutcome::Exited(0), TaskOutcome::Exited(0), TaskOutcome::Exited(255)]
        ),
        GenerationStep::Failed(Generator::Gql)
    );
}

#[test]
fn linter_takes_all_but_the_api() {
    for target in ["all", "packages", "website", "cv"] {
        let command = start_eslint(target).unwrap();
        assert_eq!(command.program, "node");
        assert_eq!(command.args, vec!["scripts/lint.ts", target]);
        assert_eq!(command, run_eslint_via_node(target));
        assert_eq!(task_runner::lint::run(target), Ok(command));
    }
    assert_eq!(start_eslint("api"), Err(LintError::InvalidTarget));
    assert_eq!(start_eslint(""), Err(LintError::InvalidTarget));
    assert_eq!(task_runner::lint::run("everything"), Err(LintError::InvalidTarget));
}

#[test]
fn linting_everything_is_slow() {
    assert!(warns_about_duration("all"));
    assert!(!warns_about_duration("cv"));
}

#[test]
fn lint_verdict_follows_the_exit_code() {
    assert_eq!(lint_verdict(Some(0)), Ok(()));
    assert_eq!(lint_verdict(Some(1)), Err(LintError::Failed));
    assert_eq!(lint_verdict(Some(-1)), Err(LintError::Failed));
    assert_eq!(lint_verdict(None), Err(LintError::Failed));
}

#[test]
fn flags_need_their_exact_value() {
    assert!(is_production_environment(Some("true")));
    assert!(!is_production_environment(Some("TRUE")));
    assert!(!is_production_environment(Some("1")));
    assert!(!is_production_environment(Some("")));
    assert!(!is_production_environment(None));
    assert!(is_azure_infrastructure(Some("azure")));
    assert!(!is_azure_infrastructure(Some("true")));
    assert!(!is_azure_infrastructure(None));
    assert!(is_verbose_mode(Some("true")));
    assert!(!is_verbose_mode(Some("false")));
    assert!(!is_verbose_mode(None));
}

#[test]
fn ci_is_known_by_either_variable() {
    assert!(is_in_ci(Some("true"), None));
    assert!(is_in_ci(None, Some("")));
    assert!(is_in_ci(Some("false"), Some("1")));
    assert!(!is_in_ci(None, None));
}

#[test]
fn configuration_is_resolved_from_all_variables() {
    assert_eq!(
        Configuration::resolve(Some("true"), Some("aws"), None, None, Some("true")),
        Configuration { production: true, azure: false, verbose: false, ci: true }
    );
    assert_eq!(
        Configuration::resolve(None, Some("azure"), Some("true"), None, None),
        Configuration { production: false, azure: true, verbose: true, ci: false }
    );
}
