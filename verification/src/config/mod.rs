pub mod rules;

use vstd::prelude::*;
use core::convert::TryFrom;
use std::time::SystemTime;

pub use self::rules::{By, RawRule, Rule, RuleError};
use self::rules::spec_rule_from_raw;

verus! {

#[verifier::external_type_specification]
#[verifier::external_body]
pub struct ExRegex(regex::Regex);

#[verifier::external_type_specification]
#[verifier::external_body]
pub struct ExRegexError(regex::Error);

#[verifier::external_type_specification]
#[verifier::external_body]
pub struct ExIoError(std::io::Error);

#[verifier::external_type_specification]
#[verifier::external_body]
pub struct ExTomlError(toml::de::Error);

#[verifier::external_type_specification]
#[verifier::external_body]
pub struct ExSystemTime(SystemTime);

/// Whether `regex::Regex::new` accepts `pattern`.
pub uninterp spec fn regex_compiles(pattern: Seq<char>) -> bool;

/// Whether the regular expression compiled from `pattern` matches somewhere
/// in `haystack`, as `regex::Regex::is_match` decides.
pub uninterp spec fn regex_matches(pattern: Seq<char>, haystack: Seq<char>) -> bool;

/// Compiles a regular expression with `regex::Regex::new`. Claimed: it
/// succeeds exactly when `regex_compiles` holds of the pattern. Nothing is
/// said of the compiled value or of the error.
#[verifier::external_body]
fn compile_regex(pattern: &str) -> (r: Result<regex::Regex, regex::Error>)
    ensures
        r is Ok <==> regex_compiles(pattern@),
{
    regex::Regex::new(pattern)
}

/// Asks `regex::Regex::is_match` whether the regular expression `pattern`
/// matches somewhere in `haystack`; the pattern is compiled with
/// `regex::Regex::new`, which succeeds by the precondition. Claimed: the
/// answer is `regex_matches` of the pattern and the haystack.
#[verifier::external_body]
fn regex_is_match(pattern: &str, haystack: &str) -> (r: bool)
    requires
        regex_compiles(pattern@),
    ensures
        r == regex_matches(pattern@, haystack@),
{
    match regex::Regex::new(pattern) {
        Ok(re) => re.is_match(haystack),
        Err(_) => false,
    }
}

/// Why a configuration could not be loaded.
#[derive(Debug)]
pub enum ConfigError {
    /// The file could not be read.
    Read(std::io::Error),
    /// The file is not valid TOML of the expected shape.
    Parse(toml::de::Error),
    /// A rule is invalid.
    RuleError(RuleError),
    /// A rule's key is not a valid regular expression.
    Regex(regex::Error),
}

/// A user of the system, as far as rules read it: the UID and the name,
/// absent where it is not valid UTF-8.
#[derive(Debug)]
pub struct UserEntry {
    pub uid: u32,
    pub name: Option<String>,
}

/// The configuration as written: the key of each rule (a regular
/// expression) with the rule, in the order of the file.
#[derive(Debug)]
pub struct RawConfig {
    pub data: Vec<(String, RawRule)>,
}

/// The key to a rule, which contains the regular expression that the rule
/// was built from, the target by which the rule will be matched against,
/// and the location of the rule that this entity points to.
pub struct Entity {
    by: By,
    expr: String,
    id: u32,
}

impl Entity {
    #[verifier::type_invariant]
    closed spec fn inv(self) -> bool {
        regex_compiles(self.expr@)
    }

    /// Whom the rule is matched by.
    pub closed spec fn spec_by(&self) -> By {
        self.by
    }

    /// The regular expression of the rule.
    pub closed spec fn spec_expr(&self) -> Seq<char> {
        self.expr@
    }

    /// The position of the rule in the configuration.
    pub closed spec fn spec_id(&self) -> u32 {
        self.id
    }

    pub fn by(&self) -> (r: By)
        ensures
            r == self.spec_by(),
    {
        self.by
    }

    pub fn expr(&self) -> (r: &str)
        ensures
            r@ == self.spec_expr(),
    {
        self.expr.as_str()
    }

    pub fn id(&self) -> (r: u32)
        ensures
            r == self.spec_id(),
    {
        self.id
    }
}

/// Whether a raw entry of the configuration is valid: its rule is, and its
/// key is a regular expression.
pub open spec fn entry_ok(entry: (String, RawRule)) -> bool {
    &&& spec_rule_from_raw(entry.1) is Ok
    &&& regex_compiles(entry.0@)
}

/// The error that loading an invalid entry reports: the rule's own error,
/// or else a regular expression error.
pub open spec fn entry_error_matches(entry: (String, RawRule), e: ConfigError) -> bool {
    match spec_rule_from_raw(entry.1) {
        Err(re) => e == ConfigError::RuleError(re),
        Ok(_) => e is Regex,
    }
}

/// Whether a user with the UID `owner`, whose name is valid UTF-8, has a
/// name that `pattern` matches.
pub open spec fn owner_matches(pattern: Seq<char>, owner: u32, users: Seq<UserEntry>) -> bool {
    exists|j: int|
        0 <= j < users.len() && #[trigger] users[j].uid == owner && users[j].name is Some
            && regex_matches(pattern, users[j].name->0@)
}

/// Whether an entity applies to a process of the given name and owner.
pub open spec fn entity_applies(
    by: By,
    expr: Seq<char>,
    process: Seq<char>,
    owner: u32,
    users: Seq<UserEntry>,
) -> bool {
    match by {
        By::Process => regex_matches(expr, process),
        By::Owner => owner_matches(expr, owner, users),
    }
}

/// The rules that apply to a process, in the order of their entities.
pub open spec fn matching_rules(
    entities: Seq<Entity>,
    rules: Seq<Rule>,
    process: Seq<char>,
    owner: u32,
    users: Seq<UserEntry>,
) -> Seq<Rule>
    decreases entities.len(),
{
    if entities.len() == 0 {
        Seq::empty()
    } else {
        let prefix = matching_rules(entities.drop_last(), rules, process, owner, users);
        let e = entities.last();
        if entity_applies(e.spec_by(), e.spec_expr(), process, owner, users) {
            prefix.push(rules[e.spec_id() as int])
        } else {
            prefix
        }
    }
}

/// Taking one more entity into account appends its rule exactly when the
/// entity applies: an entity by process applies when its expression matches
/// the process name, and an entity by owner applies when its expression
/// matches the valid name of some user whose UID is the owner's.
pub proof fn lemma_matching_rules_step(
    entities: Seq<Entity>,
    e: Entity,
    rules: Seq<Rule>,
    process: Seq<char>,
    owner: u32,
    users: Seq<UserEntry>,
)
    ensures
        matching_rules(Seq::empty(), rules, process, owner, users) == Seq::<Rule>::empty(),
        matching_rules(entities.push(e), rules, process, owner, users) == if ({
            ||| e.spec_by() == By::Process && regex_matches(e.spec_expr(), process)
            ||| e.spec_by() == By::Owner && exists|j: int|
                0 <= j < users.len() && (#[trigger] users[j]).uid == owner && users[j].name is Some
                    && regex_matches(e.spec_expr(), users[j].name->0@)
        }) {
            matching_rules(entities, rules, process, owner, users).push(rules[e.spec_id() as int])
        } else {
            matching_rules(entities, rules, process, owner, users)
        },
{
    assert(entities.push(e).drop_last() =~= entities);
    assert(entities.push(e).last() == e);
    if e.spec_by() == By::Owner {
        if owner_matches(e.spec_expr(), owner, users) {
            let j = choose|j: int|
                0 <= j < users.len() && #[trigger] users[j].uid == owner && users[j].name is Some
                    && regex_matches(e.spec_expr(), users[j].name->0@);
            assert(users[j].uid == owner);
        }
        if exists|j: int|
            0 <= j < users.len() && (#[trigger] users[j]).uid == owner && users[j].name is Some
                && regex_matches(e.spec_expr(), users[j].name->0@) {
            let j = choose|j: int|
                0 <= j < users.len() && (#[trigger] users[j]).uid == owner && users[j].name is Some
                    && regex_matches(e.spec_expr(), users[j].name->0@);
            assert(users[j].uid == owner);
        }
    }
}

/// Stores the user-defined settings for managing processes by a set of
/// rules.
pub struct Config {
    pub entities: Vec<Entity>,
    pub rules: Vec<Rule>,
    pub mtime: Option<SystemTime>,
}

impl Config {
    /// Builds the configuration from its raw entries, in their order:
    /// entity `i` holds the key of entry `i` and points to rule `i`. Fails
    /// at the first invalid entry, with the rule's error, or else with the
    /// error of the regular expression.
    pub fn from_raw(raw: RawConfig) -> (r: Result<Config, ConfigError>)
        requires
            raw.data@.len() <= u32::MAX,
        ensures
            r is Ok <==> forall|i: int| 0 <= i < raw.data@.len() ==> entry_ok(#[trigger] raw.data@[i]),
            r matches Ok(c) ==> {
                &&& c.rules@.len() == raw.data@.len()
                &&& c.entities@.len() == raw.data@.len()
                &&& c.mtime is None
                &&& forall|i: int|
                    0 <= i < raw.data@.len() ==> {
                        &&& Ok::<Rule, RuleError>(#[trigger] c.rules@[i]) == spec_rule_from_raw(raw.data@[i].1)
                        &&& c.entities@[i].spec_by() == c.rules@[i].by
                        &&& c.entities@[i].spec_expr() == raw.data@[i].0@
                        &&& c.entities@[i].spec_id() == i
                    }
            },
            r matches Err(e) ==> exists|k: int|
                0 <= k < raw.data@.len() && !entry_ok(#[trigger] raw.data@[k])
                    && entry_error_matches(raw.data@[k], e)
                    && forall|i: int| 0 <= i < k ==> entry_ok(raw.data@[i]),
    {
        let ghost data = raw.data@;
        let mut rules: Vec<Rule> = Vec::new();
        let mut entities: Vec<Entity> = Vec::new();
        let mut idx: usize = 0;
        for entry in it: raw.data.into_iter()
            invariant
                data.len() <= u32::MAX,
                it.seq() == data,
                idx == it.index(),
                rules@.len() == idx,
                entities@.len() == idx,
                forall|i: int| 0 <= i < idx ==> entry_ok(#[trigger] data[i]),
                forall|i: int|
                    0 <= i < idx ==> {
                        &&& Ok::<Rule, RuleError>(#[trigger] rules@[i]) == spec_rule_from_raw(data[i].1)
                        &&& entities@[i].spec_by() == rules@[i].by
                        &&& entities@[i].spec_expr() == data[i].0@
                        &&& entities@[i].spec_id() == i
                    },
        {
            let (expr, raw_rule) = entry;
            let rule = match Rule::try_from(raw_rule) {
                Ok(rule) => rule,
                Err(e) => {
                    assert(!entry_ok(data[idx as int]));
                    return Err(ConfigError::RuleError(e));
                },
            };
            match compile_regex(expr.as_str()) {
                Ok(_) => {},
                Err(e) => {
                    assert(!entry_ok(data[idx as int]));
                    return Err(ConfigError::Regex(e));
                },
            }
            let id = idx as u32;
            entities.push(Entity { by: rule.by, expr, id });
            rules.push(rule);
            idx = idx + 1;
        }
        Ok(Config { entities, rules, mtime: None })
    }

    /// Given a process name and its owner's UID, returns each rule that is
    /// applicable for this process, in the order of the entities: an entity
    /// by process applies when its expression matches the name; an entity
    /// by owner applies when its expression matches the name of a user
    /// with that UID.
    pub fn find_rules(&self, process: &str, process_owner: u32, users: &[UserEntry]) -> (r: Vec<Rule>)
        requires
            forall|i: int|
                0 <= i < self.entities@.len() ==> (#[trigger] self.entities@[i]).spec_id()
                    < self.rules@.len(),
        ensures
            r@ == matching_rules(self.entities@, self.rules@, process@, process_owner, users@),
    {
        let mut found: Vec<Rule> = Vec::new();
        let mut i: usize = 0;
        while i < self.entities.len()
            invariant
                i <= self.entities@.len(),
                forall|k: int|
                    0 <= k < self.entities@.len() ==> (#[trigger] self.entities@[k]).spec_id()
                        < self.rules@.len(),
                found@ == matching_rules(
                    self.entities@.subrange(0, i as int),
                    self.rules@,
                    process@,
                    process_owner,
                    users@,
                ),
            decreases self.entities@.len() - i,
        {
            let entity = &self.entities[i];
            proof {
                use_type_invariant(entity);
                assert(self.entities@.subrange(0, i + 1).drop_last() =~= self.entities@.subrange(0, i as int));
            }
            let applies = match entity.by() {
                By::Process => regex_is_match(entity.expr(), process),
                By::Owner => Self::owner_matches(entity.expr(), process_owner, users),
            };
            if applies {
                let id = entity.id() as usize;
                found.push(self.rules[id]);
            }
            i = i + 1;
        }
        assert(self.entities@.subrange(0, self.entities@.len() as int) =~= self.entities@);
        found
    }

    fn owner_matches(expr: &str, owner: u32, users: &[UserEntry]) -> (r: bool)
        requires
            regex_compiles(expr@),
        ensures
            r == owner_matches(expr@, owner, users@),
    {
        let mut j: usize = 0;
        while j < users.len()
            invariant
                regex_compiles(expr@),
                j <= users@.len(),
                forall|k: int|
                    0 <= k < j ==> !(#[trigger] users@[k].uid == owner && users@[k].name is Some
                        && regex_matches(expr@, users@[k].name->0@)),
            decreases users@.len() - j,
        {
            let user = &users[j];
            if user.uid == owner {
                match &user.name {
                    Some(name) => {
                        if regex_is_match(expr, name.as_str()) {
                            return true;
                        }
                    },
                    None => {},
                }
            }
            j = j + 1;
        }
        false
    }
}

} // verus!
