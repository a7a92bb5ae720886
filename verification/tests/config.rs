use process_scheduler::{
    config_candidates, Action, By, Config, ConfigError, Parameters, Policy, RawConfig, RawRule,
    Rule, RuleError, UserEntry,
};
use process_scheduler::daemon::{load_step, LoadStep};
use std::convert::TryFrom;

fn raw(by: Option<&str>, priority: Option<i32>, policy: Option<&str>) -> RawRule {
    RawRule {
        by: by.map(|s| s.to_string()),
        priority,
        policy: policy.map(|s| s.to_string()),
    }
}

#[test]
fn by_names() {
    assert_eq!("process".parse::<By>(), Ok(By::Process));
    assert_eq!("owner".parse::<By>(), Ok(By::Owner));
    assert_eq!("group".parse::<By>(), Err(()));
    assert_eq!(By::default(), By::Process);
}

#[test]
fn rule_from_raw() {
    let r = Rule::try_from(raw(None, Some(-5), None)).unwrap();
    assert_eq!(r, Rule { by: By::Process, priority: Some(-5), policy: None });
    let r = Rule::try_from(raw(Some("owner"), Some(20), Some("idle"))).unwrap();
    assert_eq!(r, Rule { by: By::Owner, priority: Some(20), policy: Some(Policy::Idle) });
    let r = Rule::try_from(RawRule::default()).unwrap();
    assert_eq!(r, Rule::default());
}

#[test]
fn rule_errors() {
    match Rule::try_from(raw(Some("group"), None, Some("bogus"))) {
        Err(RuleError::InvalidBy(s)) => assert_eq!(s, "group"),
        other => panic!("unexpected {:?}", other),
    }
    match Rule::try_from(raw(Some("process"), None, Some("bogus"))) {
        Err(RuleError::InvalidPolicy(s)) => assert_eq!(s, "bogus"),
        other => panic!("unexpected {:?}", other),
    }
}

fn readme_config() -> Config {
    let data = vec![
        ("avahi".to_string(), raw(Some("owner"), Some(20), None)),
        ("gdm".to_string(), raw(Some("owner"), Some(-10), None)),
        ("^(atom|code|firefox|mpv)".to_string(), raw(None, Some(-5), None)),
        ("^(gdm|gnome-shell|Xorg)".to_string(), raw(None, Some(-10), None)),
        ("^(make|cargo|rustc|rls|cicc|gcc)".to_string(), raw(None, Some(20), Some("idle"))),
        (
            "^(tracker|system76-|io.elementary.appcenter)".to_string(),
            raw(None, Some(20), Some("idle")),
        ),
        ("pulseaudio".to_string(), raw(None, Some(-15), Some("deadline"))),
    ];
    Config::from_raw(RawConfig { data }).unwrap()
}

#[test]
fn config_keeps_order() {
    let config = readme_config();
    assert_eq!(config.rules.len(), 7);
    assert_eq!(config.entities.len(), 7);
    for (i, e) in config.entities.iter().enumerate() {
        assert_eq!(e.id() as usize, i);
        assert_eq!(e.by(), config.rules[i].by);
    }
    assert_eq!(config.entities[4].expr(), "^(make|cargo|rustc|rls|cicc|gcc)");
    assert_eq!(config.entities[5].expr(), "^(tracker|system76-|io.elementary.appcenter)");
    assert!(config.mtime.is_none());
}

#[test]
fn find_rules_by_process_name() {
    let config = readme_config();
    let users: Vec<UserEntry> = Vec::new();
    let r = config.find_rules("cargo", 1000, &users);
    assert_eq!(r, vec![Rule { by: By::Process, priority: Some(20), policy: Some(Policy::Idle) }]);
    let r = config.find_rules("gdm-session", 0, &users);
    assert_eq!(r, vec![Rule { by: By::Process, priority: Some(-10), policy: None }]);
    assert!(config.find_rules("bash", 1000, &users).is_empty());
    let r = config.find_rules("tracker-miner-fs", 1000, &users);
    assert_eq!(r, vec![Rule { by: By::Process, priority: Some(20), policy: Some(Policy::Idle) }]);
}

#[test]
fn find_rules_by_owner() {
    let config = readme_config();
    let users = vec![
        UserEntry { uid: 0, name: Some("root".to_string()) },
        UserEntry { uid: 120, name: Some("gdm".to_string()) },
        UserEntry { uid: 110, name: Some("avahi".to_string()) },
        UserEntry { uid: 111, name: None },
    ];
    let r = config.find_rules("gdm-x-session", 120, &users);
    assert_eq!(
        r,
        vec![
            Rule { by: By::Owner, priority: Some(-10), policy: None },
            Rule { by: By::Process, priority: Some(-10), policy: None },
        ]
    );
    let r = config.find_rules("avahi-daemon", 110, &users);
    assert_eq!(r, vec![Rule { by: By::Owner, priority: Some(20), policy: None }]);
    assert!(config.find_rules("sleep", 111, &users).is_empty());
    assert!(config.find_rules("sleep", 999, &users).is_empty());
}

#[test]
fn config_reports_first_bad_entry() {
    let data = vec![
        ("ok".to_string(), raw(None, None, None)),
        ("(".to_string(), raw(None, None, None)),
        ("fine".to_string(), raw(Some("nobody"), None, None)),
    ];
    assert!(matches!(Config::from_raw(RawConfig { data }), Err(ConfigError::Regex(_))));
    let data = vec![
        ("(".to_string(), raw(None, None, Some("slow"))),
        ("ok".to_string(), raw(None, None, None)),
    ];
    match Config::from_raw(RawConfig { data }) {
        Err(ConfigError::RuleError(RuleError::InvalidPolicy(s))) => assert_eq!(s, "slow"),
        other => panic!("unexpected {:?}", other.err()),
    }
    assert!(Config::from_raw(RawConfig { data: Vec::new() }).unwrap().rules.is_empty());
}

#[test]
fn rule_actions() {
    let r = Rule { by: By::Process, priority: Some(20), policy: Some(Policy::Idle) };
    assert_eq!(
        r.actions(),
        vec![
            Action::SetPriority(20),
            Action::SetPolicy(Policy::Idle, Parameters { sched_priority: 0 })
        ]
    );
    assert!(Rule::default().actions().is_empty());
    let r = Rule { by: By::Owner, priority: None, policy: Some(Policy::Fifo) };
    assert_eq!(r.actions(), vec![Action::SetPolicy(Policy::Fifo, Parameters::default())]);
}

#[test]
fn config_search_order() {
    assert_eq!(
        config_candidates(true, true),
        vec!["/etc/process-scheduler/rules.toml", "/etc/default/process-scheduler/rules.toml"]
    );
    assert_eq!(config_candidates(false, true), vec!["/etc/default/process-scheduler/rules.toml"]);
    assert_eq!(config_candidates(true, false), vec!["/etc/process-scheduler/rules.toml", "rules.toml"]);
    assert_eq!(config_candidates(false, false), vec!["rules.toml"]);
}

#[test]
fn config_load_steps() {
    assert_eq!(load_step(0, 2, true), LoadStep::Use);
    assert_eq!(load_step(0, 2, false), LoadStep::Try(1));
    assert_eq!(load_step(1, 2, false), LoadStep::GiveUp);
    assert_eq!(load_step(1, 2, true), LoadStep::Use);
    assert_eq!(load_step(0, 1, false), LoadStep::GiveUp);
}
