use shelly::errors::ResolveError;
use shelly::hashing::generate_hash;
use shelly::opts::Opts;
use shelly::plan::Action;
use shelly::target::Dependency;
use shelly::target::LanguageTemplates;
use shelly::target::ProgramCommand;
use shelly::target::RemoteTarget;
use shelly::target::SupportedLanguage;
use shelly::target::Target;
use shelly::target::TemplateSet;
use shelly::target::resolve;

fn templates() -> LanguageTemplates {
    LanguageTemplates::new(
        TemplateSet::new(
            "[{dep_string}]".to_string(),
            "IO.puts(:ok)\n".to_string(),
            "#!/bin/sh\niex\n".to_string(),
        ),
        TemplateSet::new(
            "{dep_string}".to_string(),
            "console.log(1);\n".to_string(),
            "#!/bin/sh\nnode\n".to_string(),
        ),
    )
}

fn opts(shell: bool) -> Opts {
    Opts::new("out".to_string(), shell, None, None, false)
}

#[test]
fn resolve_dispatches_an_internal_target() {
    let cfg = shelly::config::default();
    let target = cfg.lookup("node").unwrap();
    let plan = resolve(target, &opts(false), "/tmp/shelly", &None, &Vec::new(), &templates())
        .unwrap();
    assert!(plan.iter().any(|a| matches!(
        a,
        Action::WriteFile { path, .. } if path == "out/package.json"
    )));
}

#[test]
fn resolve_dispatches_a_repo_target() {
    let target = Target::Repo(RemoteTarget::new(
        "https://example.invalid/x.git".to_string(),
        "make".to_string(),
        Vec::new(),
        None,
    ));
    let plan = resolve(&target, &opts(false), "/tmp/shelly", &None, &Vec::new(), &templates())
        .unwrap();
    assert!(matches!(&plan[0], Action::Run { command, .. } if command.command() == "git"));
}

#[test]
fn resolve_surfaces_the_unsupported_language() {
    let cfg = shelly::config::default();
    let target = cfg.lookup("rust").unwrap();
    match resolve(target, &opts(false), "/tmp/shelly", &None, &Vec::new(), &templates()) {
        Err(ResolveError::UnsupportedLanguage { language }) => assert_eq!(language, "rust"),
        other => panic!("expected an unsupported-language failure, got {:?}", other),
    }
}

#[test]
fn is_cached_only_on_exact_match() {
    let deps = vec![Dependency::new("axios", "0.20.0")];
    let target = shelly::node::new(&deps, false, &TemplateSet::new(
        "m".to_string(),
        "s".to_string(),
        "sh".to_string(),
    ));
    let hash = generate_hash(&deps, SupportedLanguage::Node);
    assert!(target.is_cached(&Some(hash.clone())));
    assert!(!target.is_cached(&None));
    assert!(!target.is_cached(&Some(String::new())));
    assert!(!target.is_cached(&Some(format!("{}x", hash))));
    assert!(!target.is_cached(&Some(hash.to_lowercase())));
}

#[test]
fn hash_path_method_matches_the_sidecar_layout() {
    let deps = vec![Dependency::new("jason", "1.2")];
    let target = shelly::elixir::new(&deps, false, &TemplateSet::new(
        "m".to_string(),
        "s".to_string(),
        "sh".to_string(),
    ));
    assert_eq!(target.hash_path("elixir", "/tmp/shelly"), "/tmp/shelly/elixir.hash");
}

#[test]
fn missing_source_template_message() {
    let err = ResolveError::MissingSourceTemplate { name: "index.js".to_string() };
    assert_eq!(err.message(), "No source template named index.js");
}

#[test]
fn render_failed_message_layout() {
    let err = ResolveError::RenderFailed {
        template: "mix.exs".to_string(),
        message: "boom".to_string(),
    };
    assert_eq!(err.message(), "Failed to render mix.exs: boom");
}
