//! The generators of derived files: which of them a run asks for, how each is
//! invoked, and how a run over several of them proceeds.

use crate::executor::CommandDescriptor;
use crate::executor::CommandLine;
use crate::orchestrator::TaskOutcome;
use crate::text::push_text;
use vstd::prelude::*;

verus! {

/// A generator script.
#[derive(Clone, Copy, Debug, PartialEq, Eq)]
pub enum Generator {
    Env,
    Acks,
    I18n,
    Gql,
}

/// The file name of a generator script.
pub open spec fn script_of(generator: Generator) -> Seq<char> {
    match generator {
        Generator::Env => "generate.env.ts"@,
        Generator::Acks => "generate.acks.ts"@,
        Generator::I18n => "generate.i18n.ts"@,
        Generator::Gql => "generate.gql.ts"@,
    }
}

/// The file name of a generator script.
pub fn script_name(generator: Generator) -> (name: &'static str)
    ensures
        name@ == script_of(generator),
{
    match generator {
        Generator::Env => "generate.env.ts",
        Generator::Acks => "generate.acks.ts",
        Generator::I18n => "generate.i18n.ts",
        Generator::Gql => "generate.gql.ts",
    }
}

/// The generator, if it was asked for.
pub open spec fn optional(wanted: bool, generator: Generator) -> Seq<Generator> {
    if wanted {
        seq![generator]
    } else {
        Seq::empty()
    }
}

/// The generators that were asked for, in the order in which they run.
pub open spec fn selection_of(env: bool, acks: bool, i18n: bool, gql: bool) -> Seq<Generator> {
    optional(env, Generator::Env) + optional(acks, Generator::Acks) + optional(
        i18n,
        Generator::I18n,
    ) + optional(gql, Generator::Gql)
}

/// The generators that the flags ask for, in the order in which they run.
pub fn selected_generators(env: bool, acks: bool, i18n: bool, gql: bool) -> (plan: Vec<Generator>)
    ensures
        plan@ == selection_of(env, acks, i18n, gql),
{
    let mut plan: Vec<Generator> = Vec::new();
    if env {
        plan.push(Generator::Env);
    }
    if acks {
        plan.push(Generator::Acks);
    }
    if i18n {
        plan.push(Generator::I18n);
    }
    if gql {
        plan.push(Generator::Gql);
    }
    assert(plan@ =~= selection_of(env, acks, i18n, gql));
    plan
}

/// Begins a generation run: the generators that the flags ask for, in the
/// order in which they run. Where no flag is set there is nothing to do.
pub fn run(verbose: bool, env: bool, acks: bool, i18n: bool, gql: bool) -> (plan: Vec<
    CommandDescriptor,
>)
    ensures
        plan@.len() == selection_of(env, acks, i18n, gql).len(),
        forall|i: int|
            0 <= i < plan@.len() ==> (#[trigger] plan@[i])@ == generator_command(
                script_of(selection_of(env, acks, i18n, gql)[i]),
                verbose,
            ),
{
    let selected = selected_generators(env, acks, i18n, gql);
    let mut plan: Vec<CommandDescriptor> = Vec::new();
    let mut index: usize = 0;
    while index < selected.len()
        invariant
            index <= selected.len(),
            selected@ == selection_of(env, acks, i18n, gql),
            plan@.len() == index,
            forall|i: int|
                0 <= i < plan@.len() ==> (#[trigger] plan@[i])@ == generator_command(
                    script_of(selected@[i]),
                    verbose,
                ),
        decreases selected.len() - index,
    {
        plan.push(run_generator(script_name(selected[index]), verbose));
        index += 1;
    }
    plan
}

/// The invocation of one generator script.
pub open spec fn generator_command(script: Seq<char>, verbose: bool) -> CommandLine {
    CommandLine {
        program: "node"@,
        args: if verbose {
            seq!["scripts/"@ + script, "--verbose"@]
        } else {
            seq!["scripts/"@ + script]
        },
        label: script,
    }
}

/// The invocation of the generator script `script_name`.
pub fn run_generator(script_name: &str, verbose: bool) -> (command: CommandDescriptor)
    ensures
        command@ == generator_command(script_name@, verbose),
{
    let mut path = String::from_str("scripts/");
    path.append(script_name);
    let mut args: Vec<String> = Vec::new();
    assert(args.deep_view() =~= Seq::<Seq<char>>::empty());
    push_text(&mut args, path.as_str());
    if verbose {
        push_text(&mut args, "--verbose");
    }
    assert(args.deep_view() =~= generator_command(script_name@, verbose).args);
    CommandDescriptor {
        program: String::from_str("node"),
        args,
        label: String::from_str(script_name),
    }
}

/// What a run over the planned generators does next.
#[derive(Clone, Copy, Debug, PartialEq, Eq)]
pub enum GenerationStep {
    /// Run this generator.
    Run(Generator),
    /// This generator failed; the run ends without touching the rest.
    Failed(Generator),
    /// Every planned generator succeeded.
    Done { executed: usize },
}

/// The first position at or after `from` whose generator did not succeed, or
/// the number of outcomes where all did.
pub open spec fn first_failure(outcomes: Seq<TaskOutcome>, from: int) -> int
    decreases outcomes.len() - from,
{
    if 0 <= from < outcomes.len() && outcomes[from] == TaskOutcome::Exited(0) {
        first_failure(outcomes, from + 1)
    } else {
        from
    }
}

/// The generators run one at a time, in order, and the first that fails ends
/// the run. `outcomes` holds how the generators that ran so far ended.
pub open spec fn generation_step(plan: Seq<Generator>, outcomes: Seq<TaskOutcome>) -> GenerationStep {
    let index = first_failure(outcomes, 0);
    if index < plan.len() {
        if index < outcomes.len() {
            GenerationStep::Failed(plan[index])
        } else {
            GenerationStep::Run(plan[index])
        }
    } else {
        GenerationStep::Done { executed: plan.len() as usize }
    }
}

/// What a run over `plan` does next, given how the generators that ran so far
/// ended.
pub fn next_generation_step(plan: &Vec<Generator>, outcomes: &Vec<TaskOutcome>) -> (step:
    GenerationStep)
    ensures
        step == generation_step(plan@, outcomes@),
{
    let mut index: usize = 0;
    while index < outcomes.len() && is_success(outcomes[index])
        invariant
            index <= outcomes.len(),
            first_failure(outcomes@, 0) == first_failure(outcomes@, index as int),
        decreases outcomes.len() - index,
    {
        index += 1;
    }
    if index < plan.len() {
        if index < outcomes.len() {
            GenerationStep::Failed(plan[index])
        } else {
            GenerationStep::Run(plan[index])
        }
    } else {
        GenerationStep::Done { executed: plan.len() }
    }
}

fn is_success(outcome: TaskOutcome) -> (yes: bool)
    ensures
        yes == (outcome == TaskOutcome::Exited(0)),
{
    match outcome {
        TaskOutcome::Exited(code) => code == 0,
        TaskOutcome::Errored => false,
    }
}

} // verus!
