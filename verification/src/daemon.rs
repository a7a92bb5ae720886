use vstd::prelude::*;
use crate::config::rules::Rule;
use crate::scheduler::parameters::Parameters;
use crate::scheduler::policy::Policy;

verus! {

/// The configuration that the distribution ships.
pub const DEFAULT_CONFIG_PATH: &'static str = "/etc/default/process-scheduler/rules.toml";
/// The configuration that the administrator writes.
pub const USER_CONFIG_PATH: &'static str = "/etc/process-scheduler/rules.toml";
/// The configuration in the working directory, the last resort.
pub const RULES: &'static str = "rules.toml";
/// How often the daemon looks for new processes, in milliseconds.
pub const POLL_RATE_MS: u64 = 1000;

/// One change that a rule makes to a process.
#[derive(Clone, Copy, Debug, PartialEq, Eq, Structural)]
pub enum Action {
    /// Set the process's CPU priority (nice value).
    SetPriority(i32),
    /// Set the process's scheduling policy, with these parameters.
    SetPolicy(Policy, Parameters),
}

/// The changes that a rule makes to a process, in the order they are made:
/// the priority, if the rule sets one, then the policy, with default
/// parameters, if the rule sets one.
pub open spec fn spec_rule_actions(rule: Rule) -> Seq<Action> {
    let first: Seq<Action> = match rule.priority {
        Some(p) => seq![Action::SetPriority(p)],
        None => Seq::empty(),
    };
    match rule.policy {
        Some(pol) => first.push(Action::SetPolicy(pol, Parameters { sched_priority: 0 })),
        None => first,
    }
}

impl Rule {
    /// Every available parameter of the rule, as the changes to make to a
    /// process.
    pub fn actions(&self) -> (r: Vec<Action>)
        ensures
            r@ == spec_rule_actions(*self),
    {
        let mut actions: Vec<Action> = Vec::new();
        if let Some(priority) = self.priority {
            actions.push(Action::SetPriority(priority));
        }
        if let Some(policy) = self.policy {
            actions.push(Action::SetPolicy(policy, Parameters::default()));
        }
        actions
    }
}

/// A rule with a priority first sets that priority, whether or not it also
/// sets a policy; a rule with a policy last sets that policy with default
/// parameters; and nothing else is done.
pub proof fn lemma_rule_actions(rule: Rule)
    ensures
        spec_rule_actions(rule).len() == (if rule.priority is Some { 1int } else { 0int }) + (
        if rule.policy is Some {
            1int
        } else {
            0int
        }),
        rule.priority matches Some(p) ==> spec_rule_actions(rule)[0] == Action::SetPriority(p),
        rule.policy matches Some(q) ==> spec_rule_actions(rule).last() == Action::SetPolicy(
            q,
            Parameters { sched_priority: 0 },
        ),
{
}

/// The configuration files to try, in order: the administrator's, if it
/// exists; then the shipped one if it exists, else the local one. Only the
/// last may not fail.
pub open spec fn spec_config_candidates(user_exists: bool, default_exists: bool) -> Seq<&'static str> {
    let last = if default_exists { DEFAULT_CONFIG_PATH } else { RULES };
    if user_exists {
        seq![USER_CONFIG_PATH, last]
    } else {
        seq![last]
    }
}

/// The configuration files to try, in order, given which of them exist.
pub fn config_candidates(user_exists: bool, default_exists: bool) -> (r: Vec<&'static str>)
    ensures
        r@ == spec_config_candidates(user_exists, default_exists),
{
    let mut paths: Vec<&'static str> = Vec::new();
    if user_exists {
        paths.push(USER_CONFIG_PATH);
    }
    if default_exists {
        paths.push(DEFAULT_CONFIG_PATH);
    } else {
        paths.push(RULES);
    }
    paths
}

/// What the daemon does after an attempt to load one of the candidate
/// configuration files.
#[derive(Clone, Copy, Debug, PartialEq, Eq, Structural)]
pub enum LoadStep {
    /// Use the configuration that was just loaded.
    Use,
    /// Try the candidate at this position next.
    Try(usize),
    /// The last candidate failed too: no configuration can be had.
    GiveUp,
}

/// The step after trying candidate `index` of `count`: a configuration that
/// loads is used; a failure moves on to the next candidate, and a failure
/// of the last one ends the search.
pub open spec fn spec_load_step(index: usize, count: usize, loaded: bool) -> LoadStep {
    if loaded {
        LoadStep::Use
    } else if index + 1 < count {
        LoadStep::Try((index + 1) as usize)
    } else {
        LoadStep::GiveUp
    }
}

/// Decides the step after trying candidate `index` of `count`, given
/// whether it loaded.
pub fn load_step(index: usize, count: usize, loaded: bool) -> (r: LoadStep)
    requires
        index < count,
    ensures
        r == spec_load_step(index, count, loaded),
{
    if loaded {
        LoadStep::Use
    } else if index + 1 < count {
        LoadStep::Try(index + 1)
    } else {
        LoadStep::GiveUp
    }
}

} // verus!
