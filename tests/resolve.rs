use dmesg_analyzer::config::{
    candidate_paths, join_path_exec, resolve, use_embedded, Action, Attempt, ConfigError, Probe,
    Resolver, EMBEDDED_SOURCE, SYSTEM_RULES_PATH,
};
use dmesg_analyzer::rules::{Rule, RuleSet};

fn rules_with_icon(icon: &str) -> RuleSet {
    let r = || Rule { keywords: vec!["oops".to_string()], color: "red".to_string(), icon: icon.to_string() };
    RuleSet { critical: r(), error: r(), warning: r(), info: r() }
}

fn attempt(source: &str, probe: Probe) -> Attempt {
    Attempt { source: source.to_string(), probe }
}

#[test]
fn user_file_wins_over_embedded() {
    let tiers = candidate_paths(Some("/tmp/mine.toml"), Some("/home/u/.config"));
    let attempts = vec![
        attempt(&tiers[0], Probe::Failed(ConfigError::MalformedConfig)),
        attempt(&tiers[1], Probe::Loaded(rules_with_icon("xdg"))),
        attempt(&tiers[2], Probe::Loaded(rules_with_icon("system"))),
    ];
    let r = resolve(attempts, Probe::Loaded(rules_with_icon("embedded"))).unwrap();
    assert_eq!(r.source, "/home/u/.config/dmesg-analyzer/default_rules.toml");
    assert_eq!(r.rules.critical.icon, "xdg");
}

#[test]
fn all_failed_falls_back_to_embedded() {
    let attempts = vec![
        attempt("/tmp/mine.toml", Probe::Failed(ConfigError::SourceUnavailable)),
        attempt("/home/u/.config/dmesg-analyzer/default_rules.toml", Probe::Failed(ConfigError::MalformedConfig)),
        attempt(SYSTEM_RULES_PATH, Probe::Failed(ConfigError::SourceUnavailable)),
    ];
    let r = resolve(attempts, Probe::Loaded(rules_with_icon("embedded"))).unwrap();
    assert_eq!(r.source, "embedded");
    assert_eq!(r.rules.critical.icon, "embedded");
}

#[test]
fn explicit_file_wins_first() {
    let attempts = vec![
        attempt("/tmp/mine.toml", Probe::Loaded(rules_with_icon("mine"))),
        attempt(SYSTEM_RULES_PATH, Probe::Loaded(rules_with_icon("system"))),
    ];
    let r = resolve(attempts, Probe::Failed(ConfigError::MalformedConfig)).unwrap();
    assert_eq!(r.source, "/tmp/mine.toml");
    assert_eq!(r.rules.critical.icon, "mine");
}

#[test]
fn broken_embedded_default_is_an_error() {
    let attempts = vec![attempt(SYSTEM_RULES_PATH, Probe::Failed(ConfigError::SourceUnavailable))];
    let r = resolve(attempts, Probe::Failed(ConfigError::MalformedConfig));
    assert_eq!(r.err(), Some(ConfigError::MalformedConfig));
    let r = use_embedded(Probe::Failed(ConfigError::SourceUnavailable));
    assert_eq!(r.err(), Some(ConfigError::SourceUnavailable));
    let r = use_embedded(Probe::Loaded(rules_with_icon("e"))).unwrap();
    assert_eq!(r.source, EMBEDDED_SOURCE);
}

#[test]
fn candidate_order() {
    assert_eq!(
        candidate_paths(Some("a.toml"), Some("/cfg/")),
        vec![
            "a.toml".to_string(),
            "/cfg/dmesg-analyzer/default_rules.toml".to_string(),
            "/usr/share/dmesg-analyzer/default_rules.toml".to_string(),
        ]
    );
    assert_eq!(candidate_paths(None, None), vec!["/usr/share/dmesg-analyzer/default_rules.toml".to_string()]);
    assert_eq!(join_path_exec("", "x/y"), "x/y");
    assert_eq!(join_path_exec("/a", "x"), "/a/x");
}

#[test]
fn resolver_steps() {
    let mut res = Resolver::new(Some("a.toml"), None);
    match res.next_action() {
        Action::Probe(p) => assert_eq!(p, "a.toml"),
        Action::UseEmbedded => panic!("expected a file"),
    }
    assert!(res.feed(Probe::Failed(ConfigError::SourceUnavailable)).is_none());
    match res.next_action() {
        Action::Probe(p) => assert_eq!(p, SYSTEM_RULES_PATH),
        Action::UseEmbedded => panic!("expected a file"),
    }
    assert!(res.feed(Probe::Failed(ConfigError::MalformedConfig)).is_none());
    assert!(matches!(res.next_action(), Action::UseEmbedded));

    let mut res = Resolver::new(None, Some("/cfg"));
    match res.next_action() {
        Action::Probe(p) => assert_eq!(p, "/cfg/dmesg-analyzer/default_rules.toml"),
        Action::UseEmbedded => panic!("expected a file"),
    }
    let got = res.feed(Probe::Loaded(rules_with_icon("u"))).unwrap();
    assert_eq!(got.source, "/cfg/dmesg-analyzer/default_rules.toml");
    assert_eq!(got.rules.info.icon, "u");
}
