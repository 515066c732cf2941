use shelly::opts::Opts;
use shelly::target::Target;

#[test]
fn default_config_settings() {
    let cfg = shelly::config::default();
    assert_eq!(cfg.build_dir, "/tmp/shelly");
    assert_eq!(cfg.cache, Some(true));
    assert_eq!(cfg.default_target, "elixir");
    let names: Vec<&str> = cfg.targets.iter().map(|(n, _)| n.as_str()).collect();
    assert_eq!(names, vec!["elixir", "node", "rust", "react", "phoenix_react"]);
}

#[test]
fn default_config_node_target() {
    let cfg = shelly::config::default();
    match cfg.lookup("node") {
        Some(Target::Internal(t)) => {
            assert_eq!(t.name, "node");
            let pairs: Vec<(&str, &str)> = t
                .deps
                .iter()
                .map(|d| (d.name.as_str(), d.version.as_str()))
                .collect();
            assert_eq!(
                pairs,
                vec![("axios", "0.20.0"), ("cheerio", "1.0.0-rc.3"), ("papaparse", "5.3.0")]
            );
        },
        other => panic!("expected the internal node target, got {:?}", other),
    }
}

#[test]
fn default_config_repo_targets() {
    let cfg = shelly::config::default();
    assert!(matches!(cfg.lookup("react"), Some(Target::Repo(_))));
    assert!(matches!(cfg.lookup("phoenix_react"), Some(Target::Repo(_))));
}

#[test]
fn lookup_of_an_unknown_target_is_none() {
    assert!(shelly::config::default().lookup("missing").is_none());
}

#[test]
fn opts_getters_return_what_was_given() {
    let o = Opts::new(
        "/work/proj".to_string(),
        true,
        Some("node".to_string()),
        Some("/etc/shelly.yml".to_string()),
        true,
    );
    assert_eq!(o.get_path(), "/work/proj");
    assert!(o.get_shell());
    assert_eq!(o.get_target(), Some("node".to_string()));
    assert_eq!(o.get_config(), Some("/etc/shelly.yml".to_string()));
    assert!(o.get_no_cache());
}

#[test]
fn opts_optional_fields_default_to_none() {
    let o = Opts::new(".".to_string(), false, None, None, false);
    assert_eq!(o.get_target(), None);
    assert_eq!(o.get_config(), None);
    assert!(!o.get_shell());
    assert!(!o.get_no_cache());
}
