use vstd::prelude::*;
use core::convert::TryFrom;
use core::str::FromStr;
use crate::scheduler::policy::{spec_policy_from_name, spec_policy_name, Policy};
use crate::text::str_equals;

verus! {

/// Why a rule of the configuration is invalid.
#[derive(Debug)]
pub enum RuleError {
    /// The `policy` value names no scheduling policy.
    InvalidPolicy(String),
    /// The `by` value names no way of matching.
    InvalidBy(String),
}

/// Whom a rule is matched by.
#[derive(Copy, Clone, Debug, Eq, PartialEq, Structural)]
pub enum By {
    /// The name of the process's executable.
    Process,
    /// The name of the user who owns the process.
    Owner,
}

impl Default for By {
    fn default() -> (r: By)
        ensures
            r == By::Process,
    {
        By::Process
    }
}

/// The way of matching whose name is `s`, if any.
pub open spec fn spec_by_from_name(s: Seq<char>) -> Option<By> {
    if s == "process"@ {
        Some(By::Process)
    } else if s == "owner"@ {
        Some(By::Owner)
    } else {
        None
    }
}

impl By {
    /// Parses the name of a way of matching, as written in configuration
    /// files.
    pub fn parse(input: &str) -> (r: Result<By, ()>)
        ensures
            r == (match spec_by_from_name(input@) {
                Some(b) => Ok::<By, ()>(b),
                None => Err(()),
            }),
    {
        if str_equals(input, "process") {
            Ok(By::Process)
        } else if str_equals(input, "owner") {
            Ok(By::Owner)
        } else {
            Err(())
        }
    }
}

/// The two ways of matching are named `process` and `owner`, and no other
/// name stands for one.
pub proof fn lemma_by_names()
    ensures
        spec_by_from_name("process"@) == Some(By::Process),
        spec_by_from_name("owner"@) == Some(By::Owner),
        forall|s: Seq<char>| #[trigger]
            spec_by_from_name(s) is Some ==> s == "process"@ || s == "owner"@,
{
    reveal_strlit("process");
    reveal_strlit("owner");
    assert("process"@.len() == 7);
    assert("owner"@.len() == 5);
}

impl FromStr for By {
    type Err = ();

    fn from_str(input: &str) -> (r: Result<By, ()>)
        ensures
            r == (match spec_by_from_name(input@) {
                Some(b) => Ok::<By, ()>(b),
                None => Err(()),
            }),
    {
        By::parse(input)
    }
}

/// A rule defines what parameters will be set when triggered on a process.
#[derive(Copy, Clone, Debug, Eq, PartialEq, Structural)]
pub struct Rule {
    pub by: By,
    pub priority: Option<i32>,
    pub policy: Option<Policy>,
}

impl Default for Rule {
    fn default() -> (r: Rule)
        ensures
            r == (Rule { by: By::Process, priority: None, policy: None }),
    {
        Rule { by: By::Process, priority: None, policy: None }
    }
}

/// A rule as it is written in the configuration, before it is checked.
#[derive(Debug)]
pub struct RawRule {
    pub by: Option<String>,
    pub priority: Option<i32>,
    pub policy: Option<String>,
}

impl Default for RawRule {
    fn default() -> (r: RawRule)
        ensures
            r.by is None,
            r.priority is None,
            r.policy is None,
    {
        RawRule { by: None, priority: None, policy: None }
    }
}

/// The rule that a raw rule stands for, or why it is invalid: the `by`
/// value is checked before the `policy` value; an absent `by` means
/// matching by process name.
pub open spec fn spec_rule_from_raw(raw: RawRule) -> Result<Rule, RuleError> {
    let by: Result<By, RuleError> = match raw.by {
        Some(s) => match spec_by_from_name(s@) {
            Some(b) => Ok(b),
            None => Err(RuleError::InvalidBy(s)),
        },
        None => Ok(By::Process),
    };
    match by {
        Err(e) => Err(e),
        Ok(b) => match raw.policy {
            Some(p) => match spec_policy_from_name(p@) {
                Some(pol) => Ok(Rule { by: b, priority: raw.priority, policy: Some(pol) }),
                None => Err(RuleError::InvalidPolicy(p)),
            },
            None => Ok(Rule { by: b, priority: raw.priority, policy: None }),
        },
    }
}

/// A raw rule that parses keeps its priority; a `by` of `process` (or
/// none) matches by process name and a `by` of `owner` by owner; a policy
/// written by its name gives that policy, and no policy gives none.
pub proof fn lemma_rule_fields(raw: RawRule)
    ensures
        spec_rule_from_raw(raw) matches Ok(rule) ==> {
            &&& rule.priority == raw.priority
            &&& (raw.by is None ==> rule.by == By::Process)
            &&& (raw.by matches Some(s) && s@ == "process"@ ==> rule.by == By::Process)
            &&& (raw.by matches Some(s) && s@ == "owner"@ ==> rule.by == By::Owner)
            &&& (raw.policy is None <==> rule.policy is None)
            &&& forall|p: Policy|
                raw.policy matches Some(s) && s@ == spec_policy_name(p) ==> rule.policy == Some(p)
        },
        raw.by is None && raw.policy is None ==> spec_rule_from_raw(raw) == Ok::<Rule, RuleError>(
            Rule { by: By::Process, priority: raw.priority, policy: None },
        ),
        (raw.by matches Some(s) && s@ == "process"@) && raw.policy is None ==> spec_rule_from_raw(raw)
            == Ok::<Rule, RuleError>(
            Rule { by: By::Process, priority: raw.priority, policy: None },
        ),
        (raw.by matches Some(s) && s@ == "owner"@) && raw.policy is None ==> spec_rule_from_raw(raw)
            == Ok::<Rule, RuleError>(Rule { by: By::Owner, priority: raw.priority, policy: None }),
{
    lemma_by_names();
    if let Some(s) = raw.policy {
        assert forall|p: Policy| s@ == spec_policy_name(p) implies spec_policy_from_name(s@) == Some(
            p,
        ) by {
            crate::scheduler::policy::lemma_policy_round_trips(p);
        }
    }
}

impl TryFrom<RawRule> for Rule {
    type Error = RuleError;

    fn try_from(raw_rule: RawRule) -> (r: Result<Rule, RuleError>) {
        let by = match raw_rule.by {
            Some(by) => match By::parse(by.as_str()) {
                Ok(b) => b,
                Err(_) => {
                    return Err(RuleError::InvalidBy(by));
                },
            },
            None => By::Process,
        };
        let policy = match raw_rule.policy {
            Some(policy_str) => match Policy::parse(policy_str.as_str()) {
                Ok(policy) => Some(policy),
                Err(_) => {
                    return Err(RuleError::InvalidPolicy(policy_str));
                },
            },
            None => None,
        };
        Ok(Rule { by, priority: raw_rule.priority, policy })
    }
}

impl vstd::std_specs::convert::TryFromSpecImpl<RawRule> for Rule {
    open spec fn obeys_try_from_spec() -> bool {
        true
    }

    open spec fn try_from_spec(raw: RawRule) -> Result<Rule, RuleError> {
        spec_rule_from_raw(raw)
    }
}

} // verus!
