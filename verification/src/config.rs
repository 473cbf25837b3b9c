//! The flags that the environment sets, resolved once from the values of its
//! variables.

use crate::text::same_text;
use vstd::prelude::*;

verus! {

/// Whether a variable is set to exactly `expected`.
pub open spec fn is_set_to(value: Option<&str>, expected: Seq<char>) -> bool {
    match value {
        Some(text) => text@ == expected,
        None => false,
    }
}

fn set_to(value: Option<&str>, expected: &str) -> (yes: bool)
    ensures
        yes == is_set_to(value, expected@),
{
    match value {
        Some(text) => same_text(text, expected),
        None => false,
    }
}

/// `production` is the value of the variable `PRODUCTION`.
pub fn is_production_environment(production: Option<&str>) -> (yes: bool)
    ensures
        yes == is_set_to(production, "true"@),
{
    set_to(production, "true")
}

/// `infra` is the value of the variable `INFRA`.
pub fn is_azure_infrastructure(infra: Option<&str>) -> (yes: bool)
    ensures
        yes == is_set_to(infra, "azure"@),
{
    set_to(infra, "azure")
}

/// `verbose` is the value of the variable `VERBOSE`.
pub fn is_verbose_mode(verbose: Option<&str>) -> (yes: bool)
    ensures
        yes == is_set_to(verbose, "true"@),
{
    set_to(verbose, "true")
}

/// `ci` and `github_actions` are the values of the variables `CI` and
/// `GITHUB_ACTIONS`: that either is set is enough, whatever it is set to.
pub fn is_in_ci(ci: Option<&str>, github_actions: Option<&str>) -> (yes: bool)
    ensures
        yes == (ci is Some || github_actions is Some),
{
    ci.is_some() || github_actions.is_some()
}

/// The configuration of one invocation.
#[derive(Clone, Copy, Debug, PartialEq, Eq)]
pub struct Configuration {
    pub production: bool,
    pub azure: bool,
    pub verbose: bool,
    pub ci: bool,
}

impl Configuration {
    /// Resolves the configuration from the values of the five variables.
    pub fn resolve(
        production: Option<&str>,
        infra: Option<&str>,
        verbose: Option<&str>,
        ci: Option<&str>,
        github_actions: Option<&str>,
    ) -> (configuration: Configuration)
        ensures
            configuration.production == is_set_to(production, "true"@),
            configuration.azure == is_set_to(infra, "azure"@),
            configuration.verbose == is_set_to(verbose, "true"@),
            configuration.ci == (ci is Some || github_actions is Some),
    {
        Configuration {
            production: is_production_environment(production),
            azure: is_azure_infrastructure(infra),
            verbose: is_verbose_mode(verbose),
            ci: is_in_ci(ci, github_actions),
        }
    }
}

} // verus!
